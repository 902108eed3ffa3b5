//! Flattening a record into one table row.
//!
//! A [`Serializer`] walks a record while a stack of keys tracks where in
//! the record it stands: field names push labels, sequence positions push
//! indices.  Recording a leaf value appends one column name, concatenated
//! from the stack, and one value string.
//!
//! The numeric leaves are rendered here with a verified decimal formatter;
//! bytes are rendered through the base64 alphabet.

use vstd::prelude::*;

use crate::table::Error;

verus! {

/// One step of a column name: a field's label or a position in a sequence.
#[derive(Debug, Clone)]
pub enum Key {
    Label(String),
    Index(usize),
}

/// The character for one decimal digit.
pub open spec fn digit_char(d: nat) -> char {
    if d == 0 {
        '0'
    } else if d == 1 {
        '1'
    } else if d == 2 {
        '2'
    } else if d == 3 {
        '3'
    } else if d == 4 {
        '4'
    } else if d == 5 {
        '5'
    } else if d == 6 {
        '6'
    } else if d == 7 {
        '7'
    } else if d == 8 {
        '8'
    } else {
        '9'
    }
}

/// The decimal digits of `n`, most significant first.
pub open spec fn dec_digits(n: nat) -> Seq<char>
    decreases n,
{
    if n < 10 {
        seq![digit_char(n)]
    } else {
        dec_digits(n / 10).push(digit_char(n % 10))
    }
}

/// The decimal rendering of a signed number: a minus sign before the
/// digits of its magnitude.
pub open spec fn int_digits(v: int) -> Seq<char> {
    if v < 0 {
        seq!['-'] + dec_digits((-v) as nat)
    } else {
        dec_digits(v as nat)
    }
}

/// Appends one decimal digit.
fn push_digit(out: &mut String, d: u64)
    requires
        d < 10,
    ensures
        final(out)@ == old(out)@.push(digit_char(d as nat)),
{
    let s: &str = match d {
        0 => "0",
        1 => "1",
        2 => "2",
        3 => "3",
        4 => "4",
        5 => "5",
        6 => "6",
        7 => "7",
        8 => "8",
        _ => "9",
    };
    proof {
        reveal_strlit("0");
        reveal_strlit("1");
        reveal_strlit("2");
        reveal_strlit("3");
        reveal_strlit("4");
        reveal_strlit("5");
        reveal_strlit("6");
        reveal_strlit("7");
        reveal_strlit("8");
        reveal_strlit("9");
    }
    out.append(s);
    proof {
        assert(out@ =~= old(out)@.push(digit_char(d as nat)));
    }
}

/// Appends the decimal digits of `n`.
fn push_decimal(out: &mut String, n: u64)
    ensures
        final(out)@ == old(out)@ + dec_digits(n as nat),
    decreases n,
{
    if n < 10 {
        push_digit(out, n);
        proof {
            assert(out@ =~= old(out)@ + dec_digits(n as nat));
        }
    } else {
        push_decimal(out, n / 10);
        push_digit(out, n % 10);
        proof {
            assert(out@ =~= old(out)@ + dec_digits(n as nat));
        }
    }
}

/// The decimal rendering of an unsigned number.
pub fn u64_string(n: u64) -> (r: String)
    ensures
        r@ == dec_digits(n as nat),
{
    let mut s = String::new();
    push_decimal(&mut s, n);
    proof {
        assert(s@ =~= dec_digits(n as nat));
    }
    s
}

/// The decimal rendering of a signed number.
pub fn i64_string(v: i64) -> (r: String)
    ensures
        r@ == int_digits(v as int),
{
    if v >= 0 {
        u64_string(v as u64)
    } else {
        let mut s = String::from_str("-");
        push_decimal(&mut s, crate::scalar::magnitude(v));
        proof {
            reveal_strlit("-");
            assert(s@ =~= int_digits(v as int));
        }
        s
    }
}

impl Key {
    /// The key as it appears in a column name: the label itself, or the
    /// index in brackets.
    pub fn to_string(&self) -> (r: String)
        ensures
            r@ == key_name(*self),
    {
        match self {
            Key::Label(name) => name.clone(),
            Key::Index(i) => {
                let mut out = String::from_str("[");
                push_decimal(&mut out, *i as u64);
                out.append("]");
                proof {
                    reveal_strlit("[");
                    reveal_strlit("]");
                    assert(out@ =~= key_name(*self));
                }
                out
            },
        }
    }
}

/// One key as it appears in a column name: the label itself, or the index
/// in brackets.
pub open spec fn key_name(k: Key) -> Seq<char> {
    match k {
        Key::Label(s) => s@,
        Key::Index(i) => seq!['['] + dec_digits(i as nat) + seq![']'],
    }
}

/// The column name of a key stack, read from `keys` onward: labels joined
/// with dots, indices appended in brackets.  `head` is true while no label
/// has been written yet, so the first label takes no dot.
pub open spec fn concat_from(keys: Seq<Key>, head: bool) -> Seq<char>
    decreases keys.len(),
{
    if keys.len() == 0 {
        Seq::empty()
    } else {
        match keys[0] {
            Key::Label(s) => {
                (if head {
                    s@
                } else {
                    seq!['.'] + s@
                }) + concat_from(keys.drop_first(), false)
            },
            Key::Index(i) => key_name(keys[0]) + concat_from(keys.drop_first(), head),
        }
    }
}

/// The column name of a whole key stack.
pub open spec fn concat_name_spec(keys: Seq<Key>) -> Seq<char> {
    concat_from(keys, true)
}

/// An upper estimate, saturated at the top, of a column name's length:
/// each label's length, six characters per index, and one separator per
/// key.
pub open spec fn estimate_spec(keys: Seq<Key>) -> int
    decreases keys.len(),
{
    if keys.len() == 0 {
        0
    } else {
        estimate_spec(keys.drop_last()) + (match keys.last() {
            Key::Label(s) => s@.len() as int,
            Key::Index(_) => 6,
        })
    }
}

/// Adds, stopping at the largest representable value.
fn saturating_add_usize(a: usize, b: usize) -> (r: usize)
    ensures
        r == if a + b <= usize::MAX {
            a + b
        } else {
            usize::MAX as int
        },
{
    if a <= usize::MAX - b {
        a + b
    } else {
        usize::MAX
    }
}

/// A buffer-size estimate for the column name of `keys`.
pub fn estimate_buffer_size(keys: &[Key]) -> (r: usize)
    ensures
        r == if estimate_spec(keys@) + keys@.len() <= usize::MAX {
            estimate_spec(keys@) + keys@.len()
        } else {
            usize::MAX as int
        },
{
    let n = keys.len();
    let mut size: usize = 0;
    for i in 0..n
        invariant
            n == keys@.len(),
            size == if estimate_spec(keys@.take(i as int)) <= usize::MAX {
                estimate_spec(keys@.take(i as int))
            } else {
                usize::MAX as int
            },
    {
        let step: usize = match &keys[i] {
            Key::Label(v) => v.as_str().unicode_len(),
            Key::Index(_) => 6,
        };
        size = saturating_add_usize(size, step);
        proof {
            assert(keys@.take(i + 1).drop_last() =~= keys@.take(i as int));
            assert(estimate_spec(keys@.take(i as int)) >= 0) by {
                lemma_estimate_nonneg(keys@.take(i as int));
            }
        }
    }
    proof {
        assert(keys@.take(n as int) =~= keys@);
        lemma_estimate_nonneg(keys@);
    }
    saturating_add_usize(size, n)
}

/// The length estimate is never negative.
proof fn lemma_estimate_nonneg(keys: Seq<Key>)
    ensures
        estimate_spec(keys) >= 0,
    decreases keys.len(),
{
    if keys.len() > 0 {
        lemma_estimate_nonneg(keys.drop_last());
    }
}

/// The column name of a key stack: labels joined with dots, indices in
/// brackets.
pub fn concat_name(keys: &[Key]) -> (r: String)
    ensures
        r@ == concat_name_spec(keys@),
{
    let n = keys.len();
    let mut out = String::new();
    let mut head = true;
    proof {
        assert(keys@.skip(0) =~= keys@);
        assert(out@ + concat_from(keys@.skip(0), true) =~= concat_from(keys@, true));
    }
    for i in 0..n
        invariant
            n == keys@.len(),
            concat_name_spec(keys@) == out@ + concat_from(keys@.skip(i as int), head),
    {
        let ghost out0 = out@;
        let ghost head0 = head;
        proof {
            assert(keys@.skip(i as int).drop_first() =~= keys@.skip(i + 1));
            assert(keys@.skip(i as int)[0] == keys@[i as int]);
        }
        match &keys[i] {
            Key::Label(v) => {
                if head {
                    head = false;
                } else {
                    out.append(".");
                }
                out.append(v.as_str());
                proof {
                    reveal_strlit(".");
                    if head0 {
                        assert(out@ + concat_from(keys@.skip(i + 1), false) =~= out0
                            + concat_from(keys@.skip(i as int), head0));
                    } else {
                        assert(out@ + concat_from(keys@.skip(i + 1), false) =~= out0
                            + concat_from(keys@.skip(i as int), head0));
                    }
                }
            },
            Key::Index(idx) => {
                out.append("[");
                push_decimal(&mut out, *idx as u64);
                out.append("]");
                proof {
                    reveal_strlit("[");
                    reveal_strlit("]");
                    assert(out@ + concat_from(keys@.skip(i + 1), head) =~= out0 + concat_from(
                        keys@.skip(i as int),
                        head0,
                    ));
                }
            },
        }
        proof {
            assert(concat_name_spec(keys@) == out@ + concat_from(keys@.skip(i + 1), head));
        }
    }
    proof {
        assert(keys@.skip(n as int) =~= Seq::<Key>::empty());
        assert(out@ =~= concat_name_spec(keys@));
    }
    out
}

/// Flattens one record into column names and value strings.
pub struct Serializer {
    /// Where in the record the walk stands.
    pub key_stack: Vec<Key>,
    /// The column names recorded so far.
    pub columns: Vec<String>,
    /// The value strings recorded so far.
    pub values: Vec<String>,
}

/// Relies on base64's standard-alphabet, padded encoding: the result is a
/// function of the bytes alone, four characters for every three bytes.
#[verifier::external_body]
fn base64_string(v: &[u8]) -> (r: String)
    ensures
        r@ == base64_of(v@),
        r@.len() == 4 * ((v@.len() + 2) / 3),
{
    base64::engine::Engine::encode(&base64::engine::general_purpose::STANDARD, v)
}

/// What base64's standard-alphabet, padded encoding makes of the bytes.
pub uninterp spec fn base64_of(bytes: Seq<u8>) -> Seq<char>;

/// `new` appended one column under the name of the key stack, which is
/// unchanged, and one value reading `value`.
pub open spec fn recorded(prev: Serializer, new: Serializer, value: Seq<char>) -> bool {
    &&& new.key_stack@ == prev.key_stack@
    &&& new.columns@.len() == prev.columns@.len() + 1
    &&& new.columns@.drop_last() == prev.columns@
    &&& new.columns@.last()@ == concat_name_spec(prev.key_stack@)
    &&& new.values@.len() == prev.values@.len() + 1
    &&& new.values@.drop_last() == prev.values@
    &&& new.values@.last()@ == value
}

impl Serializer {
    /// A serializer with nothing recorded and an empty key stack.
    pub fn new() -> (r: Self)
        ensures
            r.key_stack@.len() == 0,
            r.columns@.len() == 0,
            r.values@.len() == 0,
    {
        Serializer { key_stack: Vec::new(), columns: Vec::new(), values: Vec::new() }
    }

    /// Records one leaf: a column named after the key stack, and `value`.
    pub fn record(&mut self, value: String) -> (r: Result<(), Error>)
        ensures
            r is Ok,
            recorded(*old(self), *final(self), value@),
    {
        let name = concat_name(self.key_stack.as_slice());
        self.columns.push(name);
        self.values.push(value);
        proof {
            assert(self.columns@.drop_last() =~= old(self).columns@);
            assert(self.values@.drop_last() =~= old(self).values@);
        }
        Ok(())
    }

    /// A boolean as one or zero.
    pub fn serialize_bool(&mut self, v: bool) -> (r: Result<(), Error>)
        ensures
            r is Ok,
            recorded(
                *old(self),
                *final(self),
                if v {
                    dec_digits(1)
                } else {
                    dec_digits(0)
                },
            ),
    {
        if v {
            self.serialize_u64(1)
        } else {
            self.serialize_u64(0)
        }
    }

    /// A signed integer in decimal.
    pub fn serialize_i64(&mut self, v: i64) -> (r: Result<(), Error>)
        ensures
            r is Ok,
            recorded(*old(self), *final(self), int_digits(v as int)),
    {
        self.record(i64_string(v))
    }

    /// An unsigned integer in decimal.
    pub fn serialize_u64(&mut self, v: u64) -> (r: Result<(), Error>)
        ensures
            r is Ok,
            recorded(*old(self), *final(self), dec_digits(v as nat)),
    {
        self.record(u64_string(v))
    }

    /// A string as it stands.
    pub fn serialize_str(&mut self, v: &str) -> (r: Result<(), Error>)
        ensures
            r is Ok,
            recorded(*old(self), *final(self), v@),
    {
        self.record(String::from_str(v))
    }

    /// Bytes through the base64 alphabet.
    pub fn serialize_bytes(&mut self, v: &[u8]) -> (r: Result<(), Error>)
        ensures
            r is Ok,
            recorded(*old(self), *final(self), base64_of(v@)),
    {
        self.record(base64_string(v))
    }

    /// An absent or unit value, as the word null.
    pub fn serialize_unit(&mut self) -> (r: Result<(), Error>)
        ensures
            r is Ok,
            recorded(*old(self), *final(self), "null"@),
    {
        self.record(String::from_str("null"))
    }

    /// A named unit value (a unit struct or a unit variant) under its
    /// name.
    pub fn serialize_unit_name(&mut self, name: &str) -> (r: Result<(), Error>)
        ensures
            r is Ok,
            recorded(*old(self), *final(self), name@),
    {
        self.record(String::from_str(name))
    }

    /// Enters a field of the given name.
    pub fn push_label(&mut self, key: &str)
        ensures
            final(self).key_stack@.len() == old(self).key_stack@.len() + 1,
            final(self).key_stack@.drop_last() == old(self).key_stack@,
            final(self).key_stack@.last() matches Key::Label(s) && s@ == key@,
            final(self).columns@ == old(self).columns@,
            final(self).values@ == old(self).values@,
    {
        self.key_stack.push(Key::Label(String::from_str(key)));
        proof {
            assert(self.key_stack@.drop_last() =~= old(self).key_stack@);
        }
    }

    /// Enters the first position of a sequence, tuple or tuple struct.
    pub fn push_index(&mut self)
        ensures
            final(self).key_stack@ == old(self).key_stack@.push(Key::Index(0)),
            final(self).columns@ == old(self).columns@,
            final(self).values@ == old(self).values@,
    {
        self.key_stack.push(Key::Index(0));
    }

    /// Steps to the next position of the innermost sequence.
    pub fn bump_index(&mut self)
        requires
            old(self).key_stack@.len() > 0,
            old(self).key_stack@.last() is Index,
            old(self).key_stack@.last()->Index_0 < usize::MAX,
        ensures
            final(self).key_stack@ == old(self).key_stack@.drop_last().push(
                Key::Index((old(self).key_stack@.last()->Index_0 + 1) as usize),
            ),
            final(self).columns@ == old(self).columns@,
            final(self).values@ == old(self).values@,
    {
        let top = self.key_stack.pop();
        match top {
            Some(Key::Index(i)) => {
                self.key_stack.push(Key::Index(i + 1));
            },
            _ => {
                // The contract puts an index on top of the stack, so this
                // arm cannot run.
                proof {
                    assert(false);
                }
            },
        }
    }

    /// Leaves the innermost field or sequence.
    pub fn pop_key(&mut self)
        requires
            old(self).key_stack@.len() > 0,
        ensures
            final(self).key_stack@ == old(self).key_stack@.drop_last(),
            final(self).columns@ == old(self).columns@,
            final(self).values@ == old(self).values@,
    {
        let _ = self.key_stack.pop();
    }
}

impl Default for Serializer {
    /// The same as a fresh serializer.
    fn default() -> (r: Self)
        ensures
            r.key_stack@.len() == 0,
            r.columns@.len() == 0,
            r.values@.len() == 0,
    {
        Serializer::new()
    }
}

} // verus!
