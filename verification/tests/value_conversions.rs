use uiautomation::types::{Value, Variant};

#[test]
fn int_value_roundtrips() {
    let v = Value::INT(42);
    assert_eq!(v.as_int(), 42);
    assert_eq!(v.as_long(), 42);
    assert_eq!(v.as_string(), "42");
}

#[test]
fn negative_int_value_roundtrips() {
    let v = Value::INT(-13);
    assert_eq!(v.as_int(), -13);
    assert_eq!(v.as_long(), -13);
    assert_eq!(v.as_string(), "-13");
}

#[test]
fn long_value_truncates_to_int() {
    let v = Value::LONG(4294967301);
    assert_eq!(v.as_long(), 4294967301);
    assert_eq!(v.as_int(), 5);
    assert_eq!(v.as_string(), "4294967301");
}

#[test]
fn string_value_parses_as_number() {
    let v = Value::STR(String::from("123"));
    assert_eq!(v.as_int(), 123);
    assert_eq!(v.as_long(), 123);
    assert_eq!(v.as_string(), "123");
}

#[test]
fn string_value_parses_signs() {
    assert_eq!(Value::STR(String::from("-17")).as_int(), -17);
    assert_eq!(Value::STR(String::from("-17")).as_long(), -17);
    assert_eq!(Value::STR(String::from("+8")).as_int(), 8);
    assert_eq!(Value::STR(String::from("007")).as_int(), 7);
    assert_eq!(Value::STR(String::from("-0")).as_int(), 0);
}

#[test]
fn non_numeric_string_reads_as_zero() {
    assert_eq!(Value::STR(String::from("abc")).as_int(), 0);
    assert_eq!(Value::STR(String::from("abc")).as_long(), 0);
    assert_eq!(Value::STR(String::from("")).as_int(), 0);
    assert_eq!(Value::STR(String::from("12x")).as_int(), 0);
    assert_eq!(Value::STR(String::from(" 12")).as_long(), 0);
    assert_eq!(Value::STR(String::from("--5")).as_int(), 0);
    assert_eq!(Value::STR(String::from("+")).as_int(), 0);
    assert_eq!(Value::STR(String::from("12.5")).as_long(), 0);
}

#[test]
fn out_of_range_string_reads_as_zero() {
    let v = Value::STR(String::from("2147483648"));
    assert_eq!(v.as_int(), 0);
    assert_eq!(v.as_long(), 2147483648);
    let v = Value::STR(String::from("9223372036854775808"));
    assert_eq!(v.as_long(), 0);
    let v = Value::STR(String::from("99999999999999999999999999"));
    assert_eq!(v.as_int(), 0);
    assert_eq!(v.as_long(), 0);
}

#[test]
fn extreme_values_roundtrip() {
    assert_eq!(Value::STR(String::from("-2147483648")).as_int(), i32::MIN);
    assert_eq!(Value::STR(String::from("2147483647")).as_int(), i32::MAX);
    assert_eq!(Value::STR(String::from("-9223372036854775808")).as_long(), i64::MIN);
    assert_eq!(Value::STR(String::from("9223372036854775807")).as_long(), i64::MAX);
    assert_eq!(Value::LONG(i64::MIN).as_string(), "-9223372036854775808");
    assert_eq!(Value::INT(i32::MIN).as_string(), "-2147483648");
    assert_eq!(Value::INT(0).as_string(), "0");
}

#[test]
fn value_from_integers() {
    assert!(Value::from(7i16) == Value::INT(7));
    assert!(Value::from(-9i32) == Value::INT(-9));
    assert!(Value::from(1234567890123i64) == Value::LONG(1234567890123));
}

#[test]
fn value_equality_is_by_variant_and_content() {
    assert!(Value::INT(5) == Value::INT(5));
    assert!(Value::INT(5) != Value::LONG(5));
    assert!(Value::STR(String::from("a")) == Value::STR(String::from("a")));
    assert!(Value::STR(String::from("a")) != Value::STR(String::from("b")));
    assert!(Value::STR(String::from("5")) != Value::INT(5));
}

#[test]
fn variant_default_is_integer_zero() {
    let v = Variant::default();
    assert!(v.value == Value::INT(0));
}
