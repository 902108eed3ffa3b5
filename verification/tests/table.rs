use dual::table::ser::{concat_name, estimate_buffer_size, i64_string, u64_string, Key, Serializer};
use dual::table::Table;

#[test]
fn test_i64() {
    let mut ser = Serializer::new();
    ser.serialize_i64(-1).unwrap();
    assert_eq!(vec![""], ser.columns);
    assert_eq!(vec!["-1"], ser.values);
}

#[test]
fn test_u64() {
    let mut ser = Serializer::new();
    ser.serialize_u64(1).unwrap();
    assert_eq!(vec![""], ser.columns);
    assert_eq!(vec!["1"], ser.values);
}

#[test]
fn test_f64_0() {
    let v: f64 = 1.0;
    let mut ser = Serializer::new();
    ser.record(format!("{}", v)).unwrap();
    assert_eq!(vec![""], ser.columns);
    assert_eq!(vec!["1"], ser.values);
}

#[test]
fn test_f64_1() {
    let v: f64 = f64::NEG_INFINITY;
    let mut ser = Serializer::new();
    ser.record(format!("{}", v)).unwrap();
    assert_eq!(vec![""], ser.columns);
    assert_eq!(vec!["-inf"], ser.values);
}

#[test]
fn test_f64_2() {
    let v: f64 = f64::INFINITY;
    let mut ser = Serializer::new();
    ser.record(format!("{}", v)).unwrap();
    assert_eq!(vec![""], ser.columns);
    assert_eq!(vec!["inf"], ser.values);
}

#[test]
fn test_f64_3() {
    let v: f64 = f64::NAN;
    let mut ser = Serializer::new();
    ser.record(format!("{}", v)).unwrap();
    assert_eq!(vec![""], ser.columns);
    assert_eq!(vec!["NaN"], ser.values);
}

#[test]
fn test_true() {
    let mut ser = Serializer::new();
    ser.serialize_bool(true).unwrap();
    assert_eq!(vec![""], ser.columns);
    assert_eq!(vec!["1"], ser.values);
}

#[test]
fn test_false() {
    let mut ser = Serializer::new();
    ser.serialize_bool(false).unwrap();
    assert_eq!(vec![""], ser.columns);
    assert_eq!(vec!["0"], ser.values);
}

#[test]
fn test_str() {
    let mut ser = Serializer::new();
    ser.serialize_str("abs").unwrap();
    assert_eq!(vec![""], ser.columns);
    assert_eq!(vec!["abs"], ser.values);
}

#[test]
fn test_bytes() {
    let mut ser = Serializer::new();
    ser.serialize_bytes(&[1, 2, 123]).unwrap();
    assert_eq!(vec![""], ser.columns);
    assert_eq!(vec!["AQJ7"], ser.values);
}

#[test]
fn test_unit() {
    let mut ser = Serializer::new();
    ser.serialize_unit().unwrap();
    assert_eq!(vec![""], ser.columns);
    assert_eq!(vec!["null"], ser.values);
}

#[test]
fn test_none() {
    let mut ser = Serializer::new();
    ser.serialize_unit().unwrap();
    assert_eq!(vec![""], ser.columns);
    assert_eq!(vec!["null"], ser.values);
}

#[test]
fn test_some() {
    let mut ser = Serializer::new();
    ser.serialize_u64(42).unwrap();
    assert_eq!(vec![""], ser.columns);
    assert_eq!(vec!["42"], ser.values);
}

#[test]
fn test_tuple() {
    let mut ser = Serializer::new();
    ser.push_index();
    ser.serialize_str("a").unwrap();
    ser.bump_index();
    ser.serialize_i64(2).unwrap();
    ser.bump_index();
    ser.record(format!("{}", -3.0_f64)).unwrap();
    ser.pop_key();
    assert_eq!(vec!["[0]", "[1]", "[2]"], ser.columns);
    assert_eq!(vec!["a", "2", "-3"], ser.values);
}

#[test]
fn test_seq() {
    let v: Vec<f64> = vec![1.0, 2.0, 3.0];
    let mut ser = Serializer::new();
    ser.push_index();
    for x in v {
        ser.record(format!("{}", x)).unwrap();
        ser.bump_index();
    }
    ser.pop_key();
    assert_eq!(vec!["[0]", "[1]", "[2]"], ser.columns);
    assert_eq!(vec!["1", "2", "3"], ser.values);
}

#[test]
fn test_unit_variant() {
    let mut ser = Serializer::new();
    ser.serialize_unit_name("A").unwrap();
    assert_eq!(vec![""], ser.columns);
    assert_eq!(vec!["A"], ser.values);
}

#[test]
fn test_struct() {
    let mut ser = Serializer::new();
    ser.push_label("a");
    ser.record(format!("{}", 1.0_f64)).unwrap();
    ser.pop_key();
    ser.push_label("b");
    ser.serialize_u64(0).unwrap();
    ser.pop_key();
    assert_eq!(vec!["a", "b"], ser.columns);
    assert_eq!(vec!["1", "0"], ser.values);
}

#[test]
fn test_newtype_struct() {
    let mut ser = Serializer::new();
    ser.record(format!("{}", 3.0_f64)).unwrap();
    assert_eq!(vec![""], ser.columns);
    assert_eq!(vec!["3"], ser.values);
}

#[test]
fn test_tuple_struct() {
    let mut ser = Serializer::new();
    ser.push_index();
    ser.serialize_u64(1).unwrap();
    ser.bump_index();
    ser.record(format!("{}", 3.0_f64)).unwrap();
    ser.pop_key();
    assert_eq!(vec!["[0]", "[1]"], ser.columns);
    assert_eq!(vec!["1", "3"], ser.values);
}

#[test]
fn test_unit_struct() {
    let mut ser = Serializer::new();
    ser.serialize_unit_name("UStruct").unwrap();
    assert_eq!(vec![""], ser.columns);
    assert_eq!(vec!["UStruct"], ser.values);
}

#[test]
fn nested_struct_names() {
    let mut ser = Serializer::new();
    ser.push_label("a");
    ser.push_label("dim");
    ser.push_index();
    ser.serialize_u64(2).unwrap();
    ser.bump_index();
    ser.serialize_u64(2).unwrap();
    ser.pop_key();
    ser.pop_key();
    ser.pop_key();
    assert_eq!(vec!["a.dim[0]", "a.dim[1]"], ser.columns);
    assert_eq!(vec!["2", "2"], ser.values);
}

#[test]
fn decimal_strings() {
    assert_eq!(u64_string(0), "0");
    assert_eq!(u64_string(10), "10");
    assert_eq!(u64_string(12345), "12345");
    assert_eq!(u64_string(u64::MAX), "18446744073709551615");
    assert_eq!(i64_string(7), "7");
    assert_eq!(i64_string(-1), "-1");
    assert_eq!(i64_string(i64::MIN), "-9223372036854775808");
}

#[test]
fn concat_name_shapes() {
    assert_eq!(concat_name(&[]), "");
    assert_eq!(concat_name(&[Key::Label(String::from("a"))]), "a");
    assert_eq!(concat_name(&[Key::Index(3)]), "[3]");
    assert_eq!(
        concat_name(&[
            Key::Label(String::from("a")),
            Key::Label(String::from("dim")),
            Key::Index(2),
        ]),
        "a.dim[2]"
    );
    assert_eq!(
        concat_name(&[Key::Index(0), Key::Label(String::from("x"))]),
        "[0]x"
    );
}

#[test]
fn estimate_counts_labels_and_indices() {
    let keys = [Key::Label(String::from("ab")), Key::Index(3)];
    assert_eq!(estimate_buffer_size(&keys), 2 + 6 + 2);
}

#[test]
fn table_writes_header_then_rows() {
    let mut t = Table::from_writer(Vec::<u8>::new());
    t.write_row(
        vec![String::from("a"), String::from("b")],
        vec![String::from("1"), String::from("2")],
    )
    .unwrap();
    t.write_row(
        vec![String::from("a"), String::from("b")],
        vec![String::from("3"), String::from("4")],
    )
    .unwrap();
    assert_eq!(t.writer, b"a\tb\n1\t2\n3\t4".to_vec());
    let e = t.write_row(vec![], vec![String::from("5")]);
    assert!(e.is_err());
}

#[test]
fn table_with_preset_columns() {
    let mut t = Table::from_writer(Vec::<u8>::new());
    t.columns(vec![String::from("a")]);
    t.write_row(vec![], vec![String::from("9")]).unwrap();
    assert_eq!(t.writer, b"\n9".to_vec());
}

#[test]
fn key_to_string_shapes() {
    assert_eq!(Key::Label(String::from("abc")).to_string(), "abc");
    assert_eq!(Key::Index(42).to_string(), "[42]");
}
