//! Dumping rows of named values as a tab-separated table.
//!
//! A [`Table`] owns a writer and remembers the column names of the first
//! row it wrote; every later row must have exactly as many values, or the
//! dump fails rather than silently misalign.  [`ser::Serializer`] flattens
//! a record into its column names and value strings.

use vstd::prelude::*;

pub mod ser;

verus! {

/// What can go wrong while dumping a table.
#[derive(Debug, Clone, PartialEq, Eq)]
pub enum Error {
    /// The data does not flatten to one row: maps and non-unit variants
    /// have no place in a table.
    TooComplicated,
    /// Another failure, described by its message.
    Failure(String),
}

impl Error {
    /// A short description of the error.
    pub fn message(&self) -> (r: String)
        ensures
            self is TooComplicated ==> r@
                == "Map and variant is not acceptable except unit-variant pattern."@,
            self is Failure ==> r@ == "failed with serializing data: "@ + self->Failure_0@,
    {
        match self {
            Error::TooComplicated => {
                String::from_str("Map and variant is not acceptable except unit-variant pattern.")
            },
            Error::Failure(msg) => {
                String::from_str("failed with serializing data: ").concat(msg.as_str())
            },
        }
    }
}

/// Relies on std's io::Write::write_all to put the text into the writer,
/// and on io::Error's Display for the failure message.
#[verifier::external_body]
fn write_text<W: std::io::Write>(w: &mut W, s: &str) -> (r: Result<(), Error>) {
    match w.write_all(s.as_bytes()) {
        Ok(()) => Ok(()),
        Err(e) => Err(Error::Failure(format!("{}", e))),
    }
}

/// Relies on std's io::Write::flush, and on io::Error's Display for the
/// failure message.
#[verifier::external_body]
fn flush_writer<W: std::io::Write>(w: &mut W) -> (r: Result<(), Error>) {
    match w.flush() {
        Ok(()) => Ok(()),
        Err(e) => Err(Error::Failure(format!("{}", e))),
    }
}

/// The column names joined with tabs, in order.
pub open spec fn joined_row(items: Seq<Seq<char>>) -> Seq<char>
    decreases items.len(),
{
    if items.len() == 0 {
        Seq::empty()
    } else if items.len() == 1 {
        items[0]
    } else {
        joined_row(items.drop_last()) + seq!['\t'] + items.last()
    }
}

/// Joins the items with tab characters.
fn join_tabs(items: &Vec<String>) -> (r: String)
    ensures
        r@ == joined_row(items@.map_values(|s: String| s@)),
{
    let ghost m = items@.map_values(|s: String| s@);
    let mut out = String::new();
    let n = items.len();
    for i in 0..n
        invariant
            n == items@.len(),
            m == items@.map_values(|s: String| s@),
            out@ == joined_row(m.take(i as int)),
    {
        if i > 0 {
            out.append("\t");
            proof {
                reveal_strlit("\t");
            }
        }
        out.append(items[i].as_str());
        proof {
            assert(m.take(i + 1).drop_last() =~= m.take(i as int));
            assert(m.take(i + 1).last() == m[i as int]);
            if i == 0 {
                assert(out@ =~= joined_row(m.take(i + 1)));
            } else {
                assert(out@ =~= joined_row(m.take(i as int)) + seq!['\t'] + m[i as int]);
            }
        }
    }
    proof {
        assert(m.take(n as int) =~= m);
    }
    out
}

/// Writes rows of named values to `W` as a tab-separated table.
pub struct Table<W> {
    /// Where the table goes.
    pub writer: W,
    /// The column names of the first row written, once there is one.
    pub columns: Option<Vec<String>>,
}

impl<W: std::io::Write> Table<W> {
    /// A table over the given writer, with no row written yet.
    pub fn from_writer(writer: W) -> (r: Self)
        ensures
            r.columns is None,
    {
        Table { writer, columns: None }
    }

    /// Fixes the column names in advance; the first row written must then
    /// have exactly as many values.
    pub fn columns(&mut self, cols: Vec<String>)
        ensures
            final(self).columns == Some(cols),
            final(self).writer == old(self).writer,
    {
        self.columns = Some(cols);
    }

    /// Writes one row.  The first row also writes the header line and
    /// fixes the columns; every later row must carry exactly one value per
    /// column, else nothing is written and the dump fails.
    pub fn write_row(&mut self, columns: Vec<String>, values: Vec<String>) -> (r: Result<
        (),
        Error,
    >)
        ensures
            r is Ok && old(self).columns is None ==> final(self).columns == Some(columns),
            r is Ok && old(self).columns is Some ==> final(self).columns == old(self).columns,
            old(self).columns matches Some(c) && c@.len() != values@.len() ==> r is Err,
    {
        let has_columns = self.columns.is_some();
        if !has_columns {
            let header = join_tabs(&columns);
            write_text(&mut self.writer, header.as_str())?;
            let mut row = String::from_str("\n");
            row.append(join_tabs(&values).as_str());
            write_text(&mut self.writer, row.as_str())?;
            self.columns = Some(columns);
        } else {
            let width = match &self.columns {
                Some(c) => c.len(),
                None => 0,
            };
            if width == values.len() {
                let mut row = String::from_str("\n");
                row.append(join_tabs(&values).as_str());
                write_text(&mut self.writer, row.as_str())?;
            } else {
                return Err(Error::Failure(String::from_str("Data structure was changed")));
            }
        }
        flush_writer(&mut self.writer)
    }
}

} // verus!
