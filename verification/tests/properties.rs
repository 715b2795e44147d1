//! What holds of the codec as a whole, on chosen values: round trips,
//! positions, boundaries and the rules of the grammar.

use shallot::decimal::{parse_decimal, Malformed};
use shallot::deserialize::{Deserializer, Json};
use shallot::error::{Error, Kind, Overflow, Syntax};
use shallot::serialize::Serializer;
use std::num::IntErrorKind;

fn write<T>(value: &T) -> String
where
    T: shallot::serialize::Serialize<shallot::serialize::Json> + ?Sized,
{
    shallot::serialize::Json::new().serialize(value)
}

fn syntax(row: usize, col: usize, unexpected: Option<&str>, expected: Option<&str>) -> Error {
    let mut error = Syntax::new(row, col);
    if let Some(u) = unexpected {
        error = error.unexpected(u);
    }
    if let Some(e) = expected {
        error = error.expected(e);
    }
    error.into()
}

fn overflow(row: usize, col: usize, kind: &str) -> Error {
    Overflow::new(row, col).kind(kind).into()
}

#[test]
fn round_trip_i8() {
    for v in [i8::MIN, -1, 0, 1, i8::MAX] {
        let text = write(&v);
        assert_eq!(v.to_string(), text);
        assert_eq!(Ok(v), Json::new().deserialize::<i8>(&text.as_str()));
    }
}

#[test]
fn round_trip_i16() {
    for v in [i16::MIN, -1, 0, 1, i16::MAX] {
        let text = write(&v);
        assert_eq!(v.to_string(), text);
        assert_eq!(Ok(v), Json::new().deserialize::<i16>(&text.as_str()));
    }
}

#[test]
fn round_trip_i32() {
    for v in [i32::MIN, -1, 0, 1, i32::MAX] {
        let text = write(&v);
        assert_eq!(v.to_string(), text);
        assert_eq!(Ok(v), Json::new().deserialize::<i32>(&text.as_str()));
    }
}

#[test]
fn round_trip_i64() {
    for v in [i64::MIN, -1, 0, 1, i64::MAX] {
        let text = write(&v);
        assert_eq!(v.to_string(), text);
        assert_eq!(Ok(v), Json::new().deserialize::<i64>(&text.as_str()));
    }
}

#[test]
fn round_trip_i128() {
    for v in [i128::MIN, -1, 0, 1, i128::MAX] {
        let text = write(&v);
        assert_eq!(v.to_string(), text);
        assert_eq!(Ok(v), Json::new().deserialize::<i128>(&text.as_str()));
    }
    assert_eq!("-170141183460469231731687303715884105728", write(&i128::MIN));
}

#[test]
fn round_trip_isize() {
    for v in [isize::MIN, -1, 0, 1, isize::MAX] {
        let text = write(&v);
        assert_eq!(v.to_string(), text);
        assert_eq!(Ok(v), Json::new().deserialize::<isize>(&text.as_str()));
    }
}

#[test]
fn round_trip_u8() {
    for v in [u8::MIN, 1, 10, 99, 100, u8::MAX] {
        let text = write(&v);
        assert_eq!(v.to_string(), text);
        assert_eq!(Ok(v), Json::new().deserialize::<u8>(&text.as_str()));
    }
}

#[test]
fn round_trip_u16() {
    for v in [u16::MIN, 1, u16::MAX] {
        let text = write(&v);
        assert_eq!(v.to_string(), text);
        assert_eq!(Ok(v), Json::new().deserialize::<u16>(&text.as_str()));
    }
}

#[test]
fn round_trip_u32() {
    for v in [u32::MIN, 1, u32::MAX] {
        let text = write(&v);
        assert_eq!(v.to_string(), text);
        assert_eq!(Ok(v), Json::new().deserialize::<u32>(&text.as_str()));
    }
}

#[test]
fn round_trip_u64() {
    for v in [u64::MIN, 1, u64::MAX] {
        let text = write(&v);
        assert_eq!(v.to_string(), text);
        assert_eq!(Ok(v), Json::new().deserialize::<u64>(&text.as_str()));
    }
}

#[test]
fn round_trip_u128() {
    for v in [u128::MIN, 1, u128::MAX] {
        let text = write(&v);
        assert_eq!(v.to_string(), text);
        assert_eq!(Ok(v), Json::new().deserialize::<u128>(&text.as_str()));
    }
    assert_eq!("340282366920938463463374607431768211455", write(&u128::MAX));
}

#[test]
fn round_trip_usize() {
    for v in [usize::MIN, 1, usize::MAX] {
        let text = write(&v);
        assert_eq!(v.to_string(), text);
        assert_eq!(Ok(v), Json::new().deserialize::<usize>(&text.as_str()));
    }
}

#[test]
fn round_trip_unit_and_bool() {
    assert_eq!("null", write(&()));
    assert_eq!(Ok(()), Json::new().deserialize::<()>(&write(&()).as_str()));
    for v in [true, false] {
        assert_eq!(Ok(v), Json::new().deserialize::<bool>(&write(&v).as_str()));
    }
}

#[test]
fn round_trip_char() {
    for v in ['a', '"', '\\', ',', ']', '[', ' ', '\n', '0', 'é', '\u{10FFFF}', '\u{2003}'] {
        let text = write(&v);
        assert_eq!(Ok(v), Json::new().deserialize::<char>(&text.as_str()), "{text}");
    }
}

#[test]
fn round_trip_string() {
    for v in [
        "",
        "a",
        "a\"b\\c",
        "\\",
        "\\\\",
        "\"",
        "\\\"",
        "\"\\",
        "\\\\\"",
        "a, b] c[",
        " padded ",
        "two\nlines",
        "héllo wörld",
    ] {
        let text = write(&v.to_owned());
        assert_eq!(write(v), text);
        assert_eq!(Ok(v.to_owned()), Json::new().deserialize::<String>(&text.as_str()), "{text}");
    }
}

#[test]
fn round_trip_tuples_of_every_arity() {
    let s = |t: &str| t.to_owned();

    let v = (s("a, b"),);
    assert_eq!(Ok(v.clone()), Json::new().deserialize(&write(&v).as_str()));
    let v = (1_u8, s("]"));
    assert_eq!(Ok(v.clone()), Json::new().deserialize(&write(&v).as_str()));
    let v = (-1_i8, true, 'c');
    assert_eq!(Ok(v), Json::new().deserialize(&write(&v).as_str()));
    let v = ((), i16::MIN, s("\\"), ',');
    assert_eq!(Ok(v.clone()), Json::new().deserialize(&write(&v).as_str()));
    let v = (u32::MAX, false, '"', s("x"), 0_i64);
    assert_eq!(Ok(v.clone()), Json::new().deserialize(&write(&v).as_str()));
    let v = (1_u8, 2_u16, 3_u32, 4_u64, 5_u128, 6_usize);
    assert_eq!(Ok(v), Json::new().deserialize(&write(&v).as_str()));
    let v = (1_i8, 2_i16, 3_i32, 4_i64, 5_i128, 6_isize, s("seven"));
    assert_eq!(Ok(v.clone()), Json::new().deserialize(&write(&v).as_str()));
    let v = (true, false, (), 'd', s("e"), 6_u8, -7_i8, i128::MIN);
    assert_eq!(Ok(v.clone()), Json::new().deserialize(&write(&v).as_str()));
    let v = (1_u8, 'b', 3_u8, 'd', 5_u8, 'f', 7_u8, 'h', 9_u8);
    assert_eq!(Ok(v), Json::new().deserialize(&write(&v).as_str()));
    let v = (s("a"), s("b"), s("c"), s("d"), s("e"), s("f"), s("g"), s("h"), s("i"), s("\""));
    assert_eq!(Ok(v.clone()), Json::new().deserialize(&write(&v).as_str()));
    let v = (0_u8, 1_i8, 2_u16, 3_i16, 4_u32, 5_i32, 6_u64, 7_i64, 8_u128, 9_i128, 10_usize);
    assert_eq!(Ok(v), Json::new().deserialize(&write(&v).as_str()));
    let v = (u8::MAX, i8::MIN, true, (), 'e', s("f, g"), 7_u8, 8_u8, 9_u8, 10_u8, 11_u8, u128::MAX);
    assert_eq!(Ok(v.clone()), Json::new().deserialize(&write(&v).as_str()));
}

#[test]
fn nested_tuple_is_not_read_back() {
    let v = ((1_u8, 2_u8), 3_u8);
    let text = write(&v);
    assert_eq!("[[1, 2], 3]", text);
    let actual: Result<((u8, u8), u8), Error> = Json::new().deserialize(&text.as_str());
    assert_eq!(Err(syntax(1, 4, Some("1"), Some(","))), actual);
}

#[test]
fn serialize_mixed_tuple() {
    assert_eq!("[1, \"a\"]", write(&(1_u8, "a".to_string())));
}

#[test]
fn position_of_error_in_later_row() {
    let actual: Result<(u8, u8), Error> = Json::new().deserialize(&"[1,\n  x]");
    assert_eq!(Err(syntax(2, 3, Some("x"), None)), actual);

    let actual: Result<(u8, u8), Error> = Json::new().deserialize(&"\n\n [1\n,\n2 ] !");
    assert_eq!(Err(syntax(5, 5, Some("!"), None)), actual);

    let actual: Result<bool, Error> = Json::new().deserialize(&" \n nope  ");
    assert_eq!(Err(syntax(2, 2, Some("nope"), Some("bool"))), actual);

    let actual: Result<(), Error> = Json::new().deserialize(&"\r\n\tnil\n");
    assert_eq!(Err(syntax(2, 2, Some("nil"), Some("null"))), actual);

    let actual: Result<String, Error> = Json::new().deserialize(&"\"a\nb\"\n x");
    assert_eq!(Err(syntax(3, 2, Some("x"), None)), actual);

    let actual: Result<u8, Error> = Json::new().deserialize(&"\n 256");
    assert_eq!(Err(overflow(2, 2, "u8")), actual);
}

#[test]
fn whitespace_inside_integer() {
    let actual: Result<i32, Error> = Json::new().deserialize(&"12 3");
    assert_eq!(Err(syntax(1, 3, Some("whitespace"), None)), actual);
    let actual: Result<i32, Error> = Json::new().deserialize(&"12\t3");
    assert_eq!(Err(syntax(1, 3, Some("whitespace"), None)), actual);
    let actual: Result<i32, Error> = Json::new().deserialize(&"  12\n3");
    assert_eq!(Err(syntax(2, 1, Some("whitespace"), None)), actual);
    let actual: Result<u8, Error> = Json::new().deserialize(&"1\u{2003}2");
    assert_eq!(Err(syntax(1, 2, Some("whitespace"), None)), actual);
}

#[test]
fn overflow_boundary_of_every_integer() {
    fn at_start<T: std::fmt::Debug + PartialEq>(actual: Result<T, Error>, kind: &str) {
        assert_eq!(Err(overflow(1, 1, kind)), actual);
    }
    at_start(Json::new().deserialize::<i8>(&"1270"), "i8");
    at_start(Json::new().deserialize::<i8>(&"-1280"), "i8");
    at_start(Json::new().deserialize::<i8>(&"128"), "i8");
    at_start(Json::new().deserialize::<i8>(&"-129"), "i8");
    at_start(Json::new().deserialize::<i16>(&(i16::MAX.to_string() + "0").as_str()), "i16");
    at_start(Json::new().deserialize::<i16>(&(i16::MIN.to_string() + "0").as_str()), "i16");
    at_start(Json::new().deserialize::<i32>(&(i32::MAX.to_string() + "0").as_str()), "i32");
    at_start(Json::new().deserialize::<i32>(&(i32::MIN.to_string() + "0").as_str()), "i32");
    at_start(Json::new().deserialize::<i64>(&(i64::MAX.to_string() + "0").as_str()), "i64");
    at_start(Json::new().deserialize::<i64>(&(i64::MIN.to_string() + "0").as_str()), "i64");
    at_start(Json::new().deserialize::<i128>(&(i128::MAX.to_string() + "0").as_str()), "i128");
    at_start(Json::new().deserialize::<i128>(&(i128::MIN.to_string() + "0").as_str()), "i128");
    at_start(Json::new().deserialize::<isize>(&(isize::MAX.to_string() + "0").as_str()), "isize");
    at_start(Json::new().deserialize::<isize>(&(isize::MIN.to_string() + "0").as_str()), "isize");
    at_start(Json::new().deserialize::<u8>(&"2550"), "u8");
    at_start(Json::new().deserialize::<u8>(&"256"), "u8");
    at_start(Json::new().deserialize::<u16>(&(u16::MAX.to_string() + "0").as_str()), "u16");
    at_start(Json::new().deserialize::<u32>(&(u32::MAX.to_string() + "0").as_str()), "u32");
    at_start(Json::new().deserialize::<u64>(&(u64::MAX.to_string() + "0").as_str()), "u64");
    at_start(Json::new().deserialize::<u128>(&(u128::MAX.to_string() + "0").as_str()), "u128");
    at_start(Json::new().deserialize::<u128>(&"340282366920938463463374607431768211456"), "u128");
    at_start(Json::new().deserialize::<usize>(&(usize::MAX.to_string() + "0").as_str()), "usize");
    at_start(
        Json::new().deserialize::<i128>(&"-170141183460469231731687303715884105729"),
        "i128",
    );
}

#[test]
fn smallest_unsigned_with_a_zero_behind_is_a_leading_zero() {
    let actual: Result<u8, Error> = Json::new().deserialize(&"00");
    assert_eq!(Err(syntax(1, 1, Some("0"), Some("1-9"))), actual);
}

#[test]
fn leading_zero_of_every_integer() {
    fn refused<T: std::fmt::Debug + PartialEq>(actual: Result<T, Error>) {
        assert_eq!(Err(syntax(1, 1, Some("0"), Some("1-9"))), actual);
    }
    refused(Json::new().deserialize::<i8>(&"01"));
    refused(Json::new().deserialize::<i16>(&"01"));
    refused(Json::new().deserialize::<i32>(&"01"));
    refused(Json::new().deserialize::<i64>(&"01"));
    refused(Json::new().deserialize::<i128>(&"01"));
    refused(Json::new().deserialize::<isize>(&"01"));
    refused(Json::new().deserialize::<u8>(&"01"));
    refused(Json::new().deserialize::<u16>(&"01"));
    refused(Json::new().deserialize::<u32>(&"01"));
    refused(Json::new().deserialize::<u64>(&"01"));
    refused(Json::new().deserialize::<u128>(&"01"));
    refused(Json::new().deserialize::<usize>(&"01"));
    assert_eq!(Ok(0), Json::new().deserialize::<i8>(&"0"));
    assert_eq!(Ok(0), Json::new().deserialize::<u128>(&"0"));
    assert_eq!(Ok(0), Json::new().deserialize::<usize>(&" 0 "));

    let actual: Result<u8, Error> = Json::new().deserialize(&"  007");
    assert_eq!(Err(syntax(1, 3, Some("0"), Some("1-9"))), actual);
    let actual: Result<u8, Error> = Json::new().deserialize(&"0x");
    assert_eq!(Err(syntax(1, 2, Some("x"), None)), actual);
}

#[test]
fn signs_of_integers() {
    assert_eq!(Ok(1), Json::new().deserialize::<i8>(&"+1"));
    assert_eq!(Ok(1), Json::new().deserialize::<u8>(&"+1"));
    assert_eq!(Ok(0), Json::new().deserialize::<i8>(&"-0"));
    assert_eq!(Ok(-7), Json::new().deserialize::<i8>(&"-07"));
    let actual: Result<u8, Error> = Json::new().deserialize(&"-1");
    assert_eq!(Err(syntax(1, 1, Some("-"), None)), actual);
    let actual: Result<i8, Error> = Json::new().deserialize(&"-");
    assert_eq!(Err(syntax(1, 2, None, Some("i8"))), actual);
    let actual: Result<i8, Error> = Json::new().deserialize(&"+");
    assert_eq!(Err(syntax(1, 1, Some("+"), None)), actual);
    let actual: Result<i8, Error> = Json::new().deserialize(&"+x");
    assert_eq!(Err(syntax(1, 1, Some("+"), None)), actual);
    let actual: Result<i8, Error> = Json::new().deserialize(&"--1");
    assert_eq!(Err(syntax(1, 2, Some("-"), None)), actual);
    let actual: Result<i8, Error> = Json::new().deserialize(&"   ");
    assert_eq!(Err(syntax(1, 4, None, Some("i8"))), actual);
}

#[test]
fn first_failure_from_the_left_decides() {
    let actual: Result<u8, Error> = Json::new().deserialize(&"300x");
    assert_eq!(Err(overflow(1, 1, "u8")), actual);
    let actual: Result<u8, Error> = Json::new().deserialize(&"30x0");
    assert_eq!(Err(syntax(1, 3, Some("x"), None)), actual);
    assert_eq!("300x".parse::<u8>().is_err(), true);
}

#[test]
fn escaping_both_ways() {
    let decoded: Result<String, Error> = Json::new().deserialize(&"\"a\\\"b\\\\c\"");
    assert_eq!(Ok("a\"b\\c".to_owned()), decoded);
    let text = write(&"a\"b\\c".to_owned());
    assert_eq!("\"a\\\"b\\\\c\"", text);
    assert_eq!(Ok("a\"b\\c".to_owned()), Json::new().deserialize::<String>(&text.as_str()));
}

#[test]
fn other_escapes_are_kept_as_written() {
    let decoded: Result<String, Error> = Json::new().deserialize(&"\"a\\nb\"");
    assert_eq!(Ok("a\\nb".to_owned()), decoded);
}

#[test]
fn tuple_arity() {
    let actual: Result<(u8, u8), Error> = Json::new().deserialize(&"[1]");
    assert_eq!(Err(syntax(1, 4, Some("]"), Some(","))), actual);
    let actual: Result<(u8, u8), Error> = Json::new().deserialize(&"[1, 2, 3]");
    assert_eq!(Err(syntax(1, 6, Some(","), None)), actual);
    let actual: Result<(u8,), Error> = Json::new().deserialize(&"[]");
    assert_eq!(Err(syntax(1, 2, None, Some("u8"))), actual);
}

#[test]
fn escaped_delimiter_does_not_end_an_element() {
    let actual: Result<(String, u8), Error> = Json::new().deserialize(&"[\"a\"\\, 2]");
    assert_eq!(Err(syntax(1, 10, Some("]"), Some(","))), actual);
}

#[test]
fn concrete_scenarios() {
    assert_eq!(Ok(()), Json::new().deserialize::<()>(&"null"));
    assert_eq!(Ok(false), Json::new().deserialize::<bool>(&" \nfalse  "));
    assert_eq!(Err(overflow(1, 1, "i8")), Json::new().deserialize::<i8>(&"128"));
    assert_eq!(Err(overflow(1, 1, "char")), Json::new().deserialize::<char>(&"\"ab\""));
    assert_eq!(Ok((1_u8, 2_u8)), Json::new().deserialize::<(u8, u8)>(&"[1, 2]"));
    assert_eq!("[1, \"a\"]", write(&(1_u8, "a".to_string())));
}

#[test]
fn char_of_more_than_one_byte_is_one_character() {
    assert_eq!(Ok('é'), Json::new().deserialize::<char>(&"\"é\""));
    assert_eq!(Err(overflow(1, 1, "char")), Json::new().deserialize::<char>(&"\"éé\""));
    let actual: Result<char, Error> = Json::new().deserialize(&" \"\"");
    assert_eq!(Err(syntax(1, 3, Some("\""), None)), actual);
}

#[test]
fn columns_count_characters() {
    let actual: Result<(String, u8), Error> = Json::new().deserialize(&"[\"éé\", x]");
    assert_eq!(Err(syntax(1, 8, Some("x"), None)), actual);
}

#[test]
fn kinds_of_errors() {
    let e: Error = Syntax::new(3, 4).into();
    assert_eq!(Kind::Syntax, e.kind);
    assert_eq!("Syntax error at (3, 4)", e.message);
    let e: Error = Overflow::new(3, 4).kind("u8").into();
    assert_eq!(Kind::Overflow, e.kind);
    assert_eq!("Overflow error for u8 type at (3, 4)", e.message);
    let e: Error = Overflow::new(18446744073709551615, 0).into();
    assert_eq!("Overflow error at (18446744073709551615, 0)", e.message);
    let e = Error::new("misuse");
    assert_eq!(Kind::General, e.kind);
    assert_eq!("[Error]: misuse", e.to_string());
}

#[test]
fn cursor_after_a_value() {
    let mut json = Json::new();
    assert_eq!(Ok(12), json.deserialize::<u8>(&" 12\n "));
    assert_eq!((2, 2), (json.row(), json.col()));
    let mut json = Json::new();
    assert_eq!(Ok(('a', 1)), json.deserialize::<(char, u8)>(&"[\"a\",\n1]"));
    assert_eq!((2, 3), (json.row(), json.col()));
}

#[test]
fn helpers_of_the_reader() {
    let mut json = Json::new();
    assert_eq!((" \n ", "x "), json.consume_whitespace(" \n x "));
    assert_eq!((2, 2), (json.row(), json.col()));
    assert_eq!(("x ", ""), json.consume_all("x "));
    assert_eq!((2, 4), (json.row(), json.col()));

    let mut json = Json::new();
    assert_eq!(Ok(("[", "1]")), json.take_expected("[1]", "["));
    assert_eq!(Ok(("[", "1]")), json.consume_expected("[1]", "["));
    assert_eq!((1, 2), (json.row(), json.col()));
    assert_eq!(Err(syntax(1, 2, Some("1"), Some("]"))), json.take_expected("1]", "]"));
    assert_eq!(Err(syntax(1, 2, None, Some("]"))), json.take_expected("", "]"));
    assert_eq!(Ok(("\"a,b\" ", ", 2")), json.take_until("\"a,b\" , 2", ','));
    assert_eq!(Ok(("\"\\\"]\"", "]")), json.consume_until("\"\\\"]\"]", ']'));
    assert_eq!((1, 7), (json.row(), json.col()));
    assert_eq!(Err(syntax(1, 9, Some("b"), Some(","))), json.take_until("ab", ','));

    let mut json = Json::new();
    assert_eq!(Ok("a\"b".to_owned()), json.decode_string("\"a\\\"b\" rest"));
    assert_eq!(Err(syntax(1, 1, Some("a"), Some("\""))), json.decode_string("a\""));

    let mut json = Json::new();
    assert_eq!(syntax(1, 4, Some("."), None), json.syntax_error_number("1.2.3", "f64"));
    let mut json = Json::new();
    assert_eq!(syntax(1, 2, Some(" "), None), json.convert_float_error("1 2", "f32"));
    let mut json = Json::new();
    assert_eq!(syntax(1, 2, Some("."), None), json.syntax_error_number("1.2", "u8"));
}

#[test]
fn whitespace_is_the_unicode_property() {
    let mut c = '\0';
    loop {
        assert_eq!(c.is_whitespace(), shallot::text::is_whitespace(c), "{:?}", c);
        assert_eq!(c.is_ascii_digit(), shallot::text::is_digit(c), "{:?}", c);
        if c == char::MAX {
            break;
        }
        c = char::from_u32(c as u32 + 1).unwrap_or('\u{E000}');
    }
}

#[test]
fn trimming_is_that_of_the_platform() {
    for text in ["", " ", "a", " a", "a ", " \n a b \t\r\n", "\u{2003}x\u{A0}", "  \u{85} "] {
        assert_eq!(text.trim(), shallot::text::trim_text(text), "{:?}", text);
    }
}

#[test]
fn numbers_are_parsed_as_the_platform_does() {
    let texts = [
        "", "0", "-0", "+0", "1", "-1", "+1", "-", "+", "127", "128", "-128", "-129", "255", "256",
        "00000000000000000000000000000000000000255", "1x", "x1", "-x", "+-1", "-+1", "1-", "1 ",
        " 1", "٣", "1270", "300x", "30x0", "-1290x", "12x900",
    ];
    for text in texts {
        let chars: Vec<char> = text.chars().collect();
        let expected = match text.parse::<i8>() {
            Ok(v) => Ok(v as i128),
            Err(e) => Err(match e.kind() {
                IntErrorKind::Empty => Malformed::Empty,
                IntErrorKind::InvalidDigit => Malformed::InvalidDigit,
                IntErrorKind::PosOverflow => Malformed::PosOverflow,
                _ => Malformed::NegOverflow,
            }),
        };
        let actual = parse_decimal(&chars, 128, 127).map(|n| n.signed());
        assert_eq!(expected, actual, "{:?} as i8", text);

        let expected = match text.parse::<u8>() {
            Ok(v) => Ok(v as u128),
            Err(e) => Err(match e.kind() {
                IntErrorKind::Empty => Malformed::Empty,
                IntErrorKind::InvalidDigit => Malformed::InvalidDigit,
                IntErrorKind::PosOverflow => Malformed::PosOverflow,
                _ => Malformed::NegOverflow,
            }),
        };
        let actual = parse_decimal(&chars, 0, 255).map(|n| n.unsigned());
        assert_eq!(expected, actual, "{:?} as u8", text);
    }
}
