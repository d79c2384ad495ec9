use wampproto::messages::types::{clone_list, ByteArray, Dict, Error, Value};
use wampproto::text::{push_decimal, push_digits, push_length};

fn decimal(n: i64) -> String {
    let mut out = String::new();
    push_decimal(&mut out, n);
    out
}

#[test]
fn decimal_text_of_small_numbers() {
    assert_eq!(decimal(0), "0");
    assert_eq!(decimal(7), "7");
    assert_eq!(decimal(10), "10");
    assert_eq!(decimal(99), "99");
    assert_eq!(decimal(1234567890), "1234567890");
}

#[test]
fn decimal_text_of_negative_numbers() {
    assert_eq!(decimal(-1), "-1");
    assert_eq!(decimal(-42), "-42");
    assert_eq!(decimal(-1000), "-1000");
}

#[test]
fn decimal_text_of_the_extremes() {
    assert_eq!(decimal(i64::MAX), "9223372036854775807");
    assert_eq!(decimal(i64::MIN), "-9223372036854775808");
}

#[test]
fn decimal_text_agrees_with_std_on_many_numbers() {
    let mut n: i64 = -5_000_000_007;
    while n < 5_000_000_000 {
        assert_eq!(decimal(n), n.to_string());
        n += 123_456_791;
    }
}

#[test]
fn digits_are_appended_to_what_is_there() {
    let mut out = String::from("id=");
    push_digits(&mut out, 18_446_744_073_709_551_615);
    assert_eq!(out, "id=18446744073709551615");
    let mut out = String::from("len ");
    push_length(&mut out, 4096);
    assert_eq!(out, "len 4096");
}

#[test]
fn constructors_build_the_variants() {
    assert_eq!(Value::str("abc"), Value::Str("abc".to_string()));
    assert_eq!(Value::integer(-3), Value::Int(-3));
    assert_eq!(Value::float(1.5f64.to_bits()), Value::Float(0x3FF8_0000_0000_0000));
    assert_eq!(Value::bool(true), Value::Bool(true));
    assert_eq!(
        Value::list(vec![Value::Null, Value::Int(1)]),
        Value::List(vec![Value::Null, Value::Int(1)])
    );
    let mut d = Dict::new();
    d.insert("k".to_string(), Value::Int(1));
    let mut same = Dict::new();
    same.insert("k".to_string(), Value::Int(1));
    assert_eq!(Value::dict(d), Value::Dict(same));
}

#[test]
fn equality_of_values_is_structural() {
    assert_eq!(Value::Null, Value::Null);
    assert_ne!(Value::Int(1), Value::Int(2));
    assert_ne!(Value::Int(1), Value::Float(1.0f64.to_bits()));
    assert_ne!(Value::Str("1".to_string()), Value::Int(1));
    assert_eq!(Value::Bytes(ByteArray(vec![1, 2, 3])), Value::Bytes(ByteArray(vec![1, 2, 3])));
    assert_ne!(Value::Bytes(ByteArray(vec![1, 2, 3])), Value::Bytes(ByteArray(vec![1, 2])));
    assert_ne!(Value::List(vec![]), Value::Null);
}

#[test]
fn empty_dict_holds_nothing() {
    let d = Dict::new();
    assert_eq!(d.len(), 0);
    assert!(d.is_empty());
    assert!(d.get("a").is_none());
    assert!(!d.contains_key("a"));
    assert!(d.entries().is_empty());
}

#[test]
fn dict_insert_then_get() {
    let mut d = Dict::new();
    d.insert("a".to_string(), Value::Int(1));
    d.insert("b".to_string(), Value::str("two"));
    assert_eq!(d.len(), 2);
    assert!(!d.is_empty());
    assert_eq!(d.get("a"), Some(&Value::Int(1)));
    assert_eq!(d.get("b"), Some(&Value::Str("two".to_string())));
    assert!(d.get("c").is_none());
    assert!(d.contains_key("a"));
    assert!(!d.contains_key("A"));
}

#[test]
fn dict_insert_replaces_in_place() {
    let mut d = Dict::new();
    d.insert("a".to_string(), Value::Int(1));
    d.insert("b".to_string(), Value::Int(2));
    d.insert("a".to_string(), Value::Int(3));
    assert_eq!(d.len(), 2);
    assert_eq!(d.get("a"), Some(&Value::Int(3)));
    let keys: Vec<&str> = d.entries().iter().map(|e| e.0.as_str()).collect();
    assert_eq!(keys, vec!["a", "b"]);
}

#[test]
fn dict_keeps_insertion_order() {
    let mut d = Dict::new();
    for key in ["z", "y", "x", "w"] {
        d.insert(key.to_string(), Value::Null);
    }
    let keys: Vec<&str> = d.entries().iter().map(|e| e.0.as_str()).collect();
    assert_eq!(keys, vec!["z", "y", "x", "w"]);
}

#[test]
fn dict_remove_takes_the_entry_out() {
    let mut d = Dict::new();
    d.insert("a".to_string(), Value::Int(1));
    d.insert("b".to_string(), Value::Int(2));
    d.insert("c".to_string(), Value::Int(3));
    assert_eq!(d.remove("b"), Some(Value::Int(2)));
    assert_eq!(d.remove("b"), None);
    assert_eq!(d.len(), 2);
    let keys: Vec<&str> = d.entries().iter().map(|e| e.0.as_str()).collect();
    assert_eq!(keys, vec!["a", "c"]);
}

#[test]
fn dict_from_entries_lets_the_last_of_a_key_win() {
    let d = Dict::from_entries(vec![
        ("a".to_string(), Value::Int(1)),
        ("b".to_string(), Value::Int(2)),
        ("a".to_string(), Value::Int(3)),
    ]);
    assert_eq!(d.len(), 2);
    assert_eq!(d.get("a"), Some(&Value::Int(3)));
    assert_eq!(d.get("b"), Some(&Value::Int(2)));
}

#[test]
fn clone_of_a_nested_value_is_equal() {
    let mut inner = Dict::new();
    inner.insert("bytes".to_string(), Value::Bytes(ByteArray(vec![0, 255])));
    inner.insert("list".to_string(), Value::List(vec![Value::Float(7), Value::Bool(false)]));
    let mut outer = Dict::new();
    outer.insert("inner".to_string(), Value::Dict(inner));
    let v = Value::List(vec![Value::Dict(outer), Value::Null, Value::str("s"), Value::Int(-9)]);
    let copy = v.clone();
    assert_eq!(copy, v);
    match (&v, &copy) {
        (Value::List(a), Value::List(b)) => assert_eq!(clone_list(a), *b),
        _ => unreachable!(),
    }
}

#[test]
fn text_of_scalar_values() {
    assert_eq!(Value::Null.render(), "Null");
    assert_eq!(Value::Int(0).render(), "Int(0)");
    assert_eq!(Value::Int(-15).render(), "Int(-15)");
    assert_eq!(Value::Int(i64::MIN).render(), "Int(-9223372036854775808)");
    assert_eq!(Value::Bool(true).render(), "Bool(true)");
    assert_eq!(Value::Bool(false).render(), "Bool(false)");
    assert_eq!(Value::str("").render(), "Str(\"\")");
    assert_eq!(Value::str("a b").render(), "Str(\"a b\")");
    assert_eq!(Value::str("q\"q").render(), "Str(\"q\"q\")");
    assert_eq!(Value::Float(0).render(), "Float(0)");
    assert_eq!(Value::Float(1.5f64.to_bits()).render(), "Float(4609434218613702656)");
}

#[test]
fn text_of_lists_and_octets() {
    assert_eq!(Value::List(vec![]).render(), "List([])");
    assert_eq!(Value::List(vec![Value::Null]).render(), "List([Null])");
    assert_eq!(
        Value::List(vec![Value::Int(1), Value::str("x"), Value::List(vec![Value::Bool(true)])])
            .render(),
        "List([Int(1), Str(\"x\"), List([Bool(true)])])"
    );
    assert_eq!(Value::Bytes(ByteArray(vec![])).render(), "Bytes([])");
    assert_eq!(Value::Bytes(ByteArray(vec![7])).render(), "Bytes([7])");
    assert_eq!(Value::Bytes(ByteArray(vec![0, 10, 255])).render(), "Bytes([0, 10, 255])");
}

#[test]
fn text_of_dictionaries() {
    assert_eq!(Value::Dict(Dict::new()).render(), "Dict({})");
    let mut inner = Dict::new();
    inner.insert("x".to_string(), Value::Null);
    let mut d = Dict::new();
    d.insert("b".to_string(), Value::Int(2));
    d.insert("a".to_string(), Value::Dict(inner));
    d.insert("c".to_string(), Value::List(vec![Value::Int(1), Value::Int(2)]));
    assert_eq!(
        Value::Dict(d).render(),
        "Dict({\"b\": Int(2), \"a\": Dict({\"x\": Null}), \"c\": List([Int(1), Int(2)])})"
    );
}

#[test]
fn text_is_appended_to_what_is_there() {
    let mut out = String::from("got ");
    Value::Int(3).render_into(&mut out);
    assert_eq!(out, "got Int(3)");
    let mut d = Dict::new();
    d.insert("k".to_string(), Value::Int(1));
    d.insert("l".to_string(), Value::Int(2));
    let mut out = String::from("{");
    d.render_entries(&mut out);
    assert_eq!(out, "{\"k\": Int(1), \"l\": Int(2)");
}

#[test]
fn text_of_an_error() {
    assert_eq!(Error::text("boom").render(), "Error { message: \"boom\" }");
    assert_eq!(Error::text("").render(), "Error { message: \"\" }");
}

#[test]
fn error_texts() {
    assert_eq!(Error::new("boom".to_string()).message, "boom");
    assert_eq!(Error::text("boom").message, "boom");
    assert_eq!(Error::text("boom").to_string(), "MyError: boom");
    assert_eq!(Error::joined("a: ", "b").message, "a: b");
    assert_eq!(Error::numbered("id ", -12).message, "id -12");
    assert_eq!(Error::caused("outer ", &Error::text("inner")).message, "outer MyError: inner");
    assert_eq!(Error::missing_field("authid").message, "Missing field: 'authid'");
    assert_eq!(
        Error::invalid_type("authid", "Int(5)").message,
        "Invalid type for 'authid': Int(5)"
    );
}

#[test]
fn plain_values_convert_into_values() {
    assert_eq!(Value::from(5i64), Value::Int(5));
    assert_eq!(Value::from(true), Value::Bool(true));
    assert_eq!(Value::from("text".to_string()), Value::Str("text".to_string()));
    assert_eq!(Value::from(vec![1u8, 2]), Value::Bytes(ByteArray(vec![1, 2])));
    assert_eq!(Value::from(ByteArray(vec![3])), Value::Bytes(ByteArray(vec![3])));
    let v: Value = 7i64.into();
    assert_eq!(v, Value::Int(7));
}
