//! The JSON-like serializer on given values.

use shallot::serialize::{Json, Serializer};

/// Test Json::new creates a Json as expected.
#[test]
fn json_new_correct() {
    let expected = Json {};
    let actual = Json::new();
    assert_eq!(expected, actual);
}

/// Test Json::visit_bool correctly serializes a true bool type.
#[test]
fn json_visit_bool_true() {
    let expected = "true".to_owned();
    let actual = Json::new().visit_bool(&true);
    assert_eq!(expected, actual);

    let actual = Json::new().serialize(&true);
    assert_eq!(expected, actual);
}

/// Test Json::visit_bool correctly serializes a false bool type.
#[test]
fn json_visit_bool_false() {
    let expected = "false".to_owned();
    let actual = Json::new().visit_bool(&false);
    assert_eq!(expected, actual);

    let actual = Json::new().serialize(&false);
    assert_eq!(expected, actual);
}

/// Test Json::visit_char correctly serializes a char type.
#[test]
fn json_visit_char_correct() {
    let expected = "\"a\"".to_owned();
    let actual = Json::new().visit_char(&'a');
    assert_eq!(expected, actual);

    let actual = Json::new().serialize(&'a');
    assert_eq!(expected, actual);
}

/// Test Json::visit_char correctly serializes an escape backslash.
#[test]
fn json_visit_char_escape_backslash() {
    let expected = "\"\\\\\"".to_owned();
    let actual = Json::new().visit_char(&'\\');
    assert_eq!(expected, actual);

    let actual = Json::new().serialize(&'\\');
    assert_eq!(expected, actual);
}

/// Test Json::visit_char correctly serializes an escape quote.
#[test]
fn json_visit_char_escape_quote() {
    let expected = "\"\\\"\"".to_owned();
    let actual = Json::new().visit_char(&'"');
    assert_eq!(expected, actual);

    let actual = Json::new().serialize(&'"');
    assert_eq!(expected, actual);
}

/// Test Json::visit_i8 correctly serializes an i8 type.
#[test]
fn visit_i8_correct() {
    let expected = "1".to_owned();
    let actual = Json::new().visit_i8(&1_i8);
    assert_eq!(expected, actual);

    let actual = Json::new().serialize(&1_i8);
    assert_eq!(expected, actual);
}

/// Test Json::visit_i16 correctly serializes an i16 type.
#[test]
fn visit_i16_correct() {
    let expected = "1".to_owned();
    let actual = Json::new().visit_i16(&1_i16);
    assert_eq!(expected, actual);

    let actual = Json::new().serialize(&1_i16);
    assert_eq!(expected, actual);
}

/// Test Json::visit_i32 correctly serializes an i32 type.
#[test]
fn visit_i32_correct() {
    let expected = "1".to_owned();
    let actual = Json::new().visit_i32(&1_i32);
    assert_eq!(expected, actual);

    let actual = Json::new().serialize(&1_i32);
    assert_eq!(expected, actual);
}

/// Test Json::visit_i64 correctly serializes an i64 type.
#[test]
fn visit_i64_correct() {
    let expected = "1".to_owned();
    let actual = Json::new().visit_i64(&1_i64);
    assert_eq!(expected, actual);

    let actual = Json::new().serialize(&1_i64);
    assert_eq!(expected, actual);
}

/// Test Json::visit_i128 correctly serializes an i128 type.
#[test]
fn visit_i128_correct() {
    let expected = "1".to_owned();
    let actual = Json::new().visit_i128(&1_i128);
    assert_eq!(expected, actual);

    let actual = Json::new().serialize(&1_i128);
    assert_eq!(expected, actual);
}

/// Test Json::visit_isize correctly serializes an isize type.
#[test]
fn visit_isize_correct() {
    let expected = "1".to_owned();
    let actual = Json::new().visit_isize(&1_isize);
    assert_eq!(expected, actual);

    let actual = Json::new().serialize(&1_isize);
    assert_eq!(expected, actual);
}

/// Test Json::visit_str correctly serializes a str type.
#[test]
fn visit_str_correct() {
    let expected = "\"a\"".to_owned();
    let actual = Json::new().visit_str("a");
    assert_eq!(expected, actual);

    let actual = Json::new().serialize("a");
    assert_eq!(expected, actual);
}

/// Test Json::visit_str correctly serializes an escape backslash.
#[test]
fn visit_str_escape_backslash() {
    let expected = "\"\\\\\"".to_owned();
    let actual = Json::new().visit_str("\\");
    assert_eq!(expected, actual);

    let actual = Json::new().serialize("\\");
    assert_eq!(expected, actual);
}

/// Test Json::visit_str correctly serializes an escape quote.
#[test]
fn visit_str_escape_quote() {
    let expected = "\"\\\"\"".to_owned();
    let actual = Json::new().visit_str("\"");
    assert_eq!(expected, actual);

    let actual = Json::new().serialize("\"");
    assert_eq!(expected, actual);
}

/// Test Json::visit_string correctly serializes a String type.
#[test]
fn json_visit_string_correct() {
    let expected = "\"a\"".to_owned();
    let actual = Json::new().visit_string(&"a".to_owned());
    assert_eq!(expected, actual);

    let actual = Json::new().serialize(&"a".to_owned());
    assert_eq!(expected, actual);
}

/// Test Json::visit_string correctly serializes an escape backslash.
#[test]
fn json_visit_string_escape_backslash() {
    let expected = "\"\\\\\"".to_owned();
    let actual = Json::new().visit_string(&"\\".to_owned());
    assert_eq!(expected, actual);

    let actual = Json::new().serialize(&"\\".to_owned());
    assert_eq!(expected, actual);
}

/// Test Json::visit_string correctly serializes an escape quote.
#[test]
fn json_visit_string_escape_quote() {
    let expected = "\"\\\"\"".to_owned();
    let actual = Json::new().visit_string(&"\"".to_owned());
    assert_eq!(expected, actual);

    let actual = Json::new().serialize(&"\"".to_owned());
    assert_eq!(expected, actual);
}

/// Test Json::visit_tuple_1 correctly serializes a tuple type of size 1.
#[test]
fn json_visit_tuple_1_correct() {
    let expected = "[1]".to_owned();
    let actual = Json::new().visit_tuple_1(&(1_u8,));
    assert_eq!(expected, actual);

    let actual = Json::new().serialize(&(1_u8,));
    assert_eq!(expected, actual);
}

/// Test Json::visit_tuple_2 correctly serializes a tuple type of size 2.
#[test]
fn json_visit_tuple_2_correct() {
    let expected = "[1, 2]".to_owned();
    let actual = Json::new().visit_tuple_2(&(1_u8, 2_u8));
    assert_eq!(expected, actual);

    let actual = Json::new().serialize(&(1_u8, 2_u8));
    assert_eq!(expected, actual);
}

/// Test Json::visit_tuple_3 correctly serializes a tuple type of size 3.
#[test]
fn json_visit_tuple_3_correct() {
    let expected = "[1, 2, 3]".to_owned();
    let actual = Json::new().visit_tuple_3(&(1_u8, 2_u8, 3_u8));
    assert_eq!(expected, actual);

    let actual = Json::new().serialize(&(1_u8, 2_u8, 3_u8));
    assert_eq!(expected, actual);
}

/// Test Json::visit_tuple_4 correctly serializes a tuple type of size 4.
#[test]
fn json_visit_tuple_4_correct() {
    let expected = "[1, 2, 3, 4]".to_owned();
    let actual = Json::new().visit_tuple_4(&(1_u8, 2_u8, 3_u8, 4_u8));
    assert_eq!(expected, actual);

    let actual = Json::new().serialize(&(1_u8, 2_u8, 3_u8, 4_u8));
    assert_eq!(expected, actual);
}

/// Test Json::visit_tuple_5 correctly serializes a tuple type of size 5.
#[test]
fn json_visit_tuple_5_correct() {
    let expected = "[1, 2, 3, 4, 5]".to_owned();
    let actual = Json::new().visit_tuple_5(&(1_u8, 2_u8, 3_u8, 4_u8, 5_u8));
    assert_eq!(expected, actual);

    let actual = Json::new().serialize(&(1_u8, 2_u8, 3_u8, 4_u8, 5_u8));
    assert_eq!(expected, actual);
}

/// Test Json::visit_tuple_6 correctly serializes a tuple type of size 6.
#[test]
fn json_visit_tuple_6_correct() {
    let expected = "[1, 2, 3, 4, 5, 6]".to_owned();
    let actual = Json::new().visit_tuple_6(&(1_u8, 2_u8, 3_u8, 4_u8, 5_u8, 6_u8));
    assert_eq!(expected, actual);

    let actual = Json::new().serialize(&(1_u8, 2_u8, 3_u8, 4_u8, 5_u8, 6_u8));
    assert_eq!(expected, actual);
}

/// Test Json::visit_tuple_7 correctly serializes a tuple type of size 7.
#[test]
fn json_visit_tuple_7_correct() {
    let expected = "[1, 2, 3, 4, 5, 6, 7]".to_owned();
    let actual = Json::new().visit_tuple_7(&(1_u8, 2_u8, 3_u8, 4_u8, 5_u8, 6_u8, 7_u8));
    assert_eq!(expected, actual);

    let actual = Json::new().serialize(&(1_u8, 2_u8, 3_u8, 4_u8, 5_u8, 6_u8, 7_u8));
    assert_eq!(expected, actual);
}

/// Test Json::visit_tuple_8 correctly serializes a tuple type of size 8.
#[test]
fn json_visit_tuple_8_correct() {
    let expected = "[1, 2, 3, 4, 5, 6, 7, 8]".to_owned();
    let actual = Json::new().visit_tuple_8(&(1_u8, 2_u8, 3_u8, 4_u8, 5_u8, 6_u8, 7_u8, 8_u8));
    assert_eq!(expected, actual);

    let actual = Json::new().serialize(&(1_u8, 2_u8, 3_u8, 4_u8, 5_u8, 6_u8, 7_u8, 8_u8));
    assert_eq!(expected, actual);
}

/// Test Json::visit_tuple_9 correctly serializes a tuple type of size 9.
#[test]
fn json_visit_tuple_9_correct() {
    let expected = "[1, 2, 3, 4, 5, 6, 7, 8, 9]".to_owned();
    let actual =
        Json::new().visit_tuple_9(&(1_u8, 2_u8, 3_u8, 4_u8, 5_u8, 6_u8, 7_u8, 8_u8, 9_u8));
    assert_eq!(expected, actual);

    let actual = Json::new().serialize(&(1_u8, 2_u8, 3_u8, 4_u8, 5_u8, 6_u8, 7_u8, 8_u8, 9_u8));
    assert_eq!(expected, actual);
}

/// Test Json::visit_tuple_10 correctly serializes a tuple type of size 10.
#[test]
fn json_visit_tuple_10_correct() {
    let expected = "[1, 2, 3, 4, 5, 6, 7, 8, 9, 10]".to_owned();
    let actual = Json::new()
        .visit_tuple_10(&(1_u8, 2_u8, 3_u8, 4_u8, 5_u8, 6_u8, 7_u8, 8_u8, 9_u8, 10_u8));
    assert_eq!(expected, actual);

    let actual =
        Json::new().serialize(&(1_u8, 2_u8, 3_u8, 4_u8, 5_u8, 6_u8, 7_u8, 8_u8, 9_u8, 10_u8));
    assert_eq!(expected, actual);
}

/// Test Json::visit_tuple_11 correctly serializes a tuple type of size 11.
#[test]
fn json_visit_tuple_11_correct() {
    let expected = "[1, 2, 3, 4, 5, 6, 7, 8, 9, 10, 11]".to_owned();
    let actual = Json::new().visit_tuple_11(&(
        1_u8, 2_u8, 3_u8, 4_u8, 5_u8, 6_u8, 7_u8, 8_u8, 9_u8, 10_u8, 11_u8,
    ));
    assert_eq!(expected, actual);

    let actual = Json::new().serialize(&(
        1_u8, 2_u8, 3_u8, 4_u8, 5_u8, 6_u8, 7_u8, 8_u8, 9_u8, 10_u8, 11_u8,
    ));
    assert_eq!(expected, actual);
}

/// Test Json::visit_tuple_12 correctly serializes a tuple type of size 12.
#[test]
fn json_visit_tuple_12_correct() {
    let expected = "[1, 2, 3, 4, 5, 6, 7, 8, 9, 10, 11, 12]".to_owned();
    let actual = Json::new().visit_tuple_12(&(
        1_u8, 2_u8, 3_u8, 4_u8, 5_u8, 6_u8, 7_u8, 8_u8, 9_u8, 10_u8, 11_u8, 12_u8,
    ));
    assert_eq!(expected, actual);

    let actual = Json::new().serialize(&(
        1_u8, 2_u8, 3_u8, 4_u8, 5_u8, 6_u8, 7_u8, 8_u8, 9_u8, 10_u8, 11_u8, 12_u8,
    ));
    assert_eq!(expected, actual);
}

/// Test Json::visit_u8 correctly serializes a u8 type.
#[test]
fn visit_u8_correct() {
    let expected = "1".to_owned();
    let actual = Json::new().visit_u8(&1_u8);
    assert_eq!(expected, actual);

    let actual = Json::new().serialize(&1_u8);
    assert_eq!(expected, actual);
}

/// Test Json::visit_u16 correctly serializes a u16 type.
#[test]
fn visit_u16_correct() {
    let expected = "1".to_owned();
    let actual = Json::new().visit_u16(&1_u16);
    assert_eq!(expected, actual);

    let actual = Json::new().serialize(&1_u16);
    assert_eq!(expected, actual);
}

/// Test Json::visit_u32 correctly serializes a u32 type.
#[test]
fn visit_u32_correct() {
    let expected = "1".to_owned();
    let actual = Json::new().visit_u32(&1_u32);
    assert_eq!(expected, actual);

    let actual = Json::new().serialize(&1_u32);
    assert_eq!(expected, actual);
}

/// Test Json::visit_u64 correctly serializes a u64 type.
#[test]
fn visit_u64_correct() {
    let expected = "1".to_owned();
    let actual = Json::new().visit_u64(&1_u64);
    assert_eq!(expected, actual);

    let actual = Json::new().serialize(&1_u64);
    assert_eq!(expected, actual);
}

/// Test Json::visit_u128 correctly serializes a u128 type.
#[test]
fn visit_u128_correct() {
    let expected = "1".to_owned();
    let actual = Json::new().visit_u128(&1_u128);
    assert_eq!(expected, actual);

    let actual = Json::new().serialize(&1_u128);
    assert_eq!(expected, actual);
}

/// Test Json::visit_unit correctly serializes a unit type.
#[test]
fn json_visit_unit_correct() {
    let expected = "null".to_owned();
    let actual = Json::new().visit_unit();
    assert_eq!(expected, actual);

    let actual = Json::new().serialize(&());
    assert_eq!(expected, actual);
}

/// Test Json::visit_usize correctly serializes a usize type.
#[test]
fn visit_usize_correct() {
    let expected = "1".to_owned();
    let actual = Json::new().visit_usize(&1_usize);
    assert_eq!(expected, actual);

    let actual = Json::new().serialize(&1_usize);
    assert_eq!(expected, actual);
}
