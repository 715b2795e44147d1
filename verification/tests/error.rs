//! The error values: what they hold and how they read.

use shallot::error::{Error, Kind, Overflow, Syntax};

/// Test Error::new creates a Error as expected.
/// Test Syntax::new creates a Syntax as expected.
#[test]
fn error_new_correct() {
    {
        let expected = Error {
            message: "Whoops, something went wrong!".to_owned(),
            kind: Kind::General,
        };
        let actual = Error::new("Whoops, something went wrong!");
        assert_eq!(expected, actual);
    }
    {
        let expected = Syntax {
            col: 1,
            expected: None,
            row: 1,
            unexpected: None,
        };
        let actual = Syntax::new(1, 1);
        assert_eq!(expected, actual);
    }
}

/// Test Error::fmt functions correctly.
#[test]
fn fmt_correct() {
    let expected = "[Error]: Whoops, something went wrong!";
    let actual = Error::new("Whoops, something went wrong!").to_string();
    assert_eq!(expected, actual);
}

/// Test Error::from functions correctly from Syntax.
#[test]
fn from_syntax_correct() {
    let mut expected = Error::new("Syntax error at (1, 1)");
    expected.kind = Kind::Syntax;
    let actual: Error = Syntax::new(1, 1).into();
    assert_eq!(expected, actual);
}

/// Test Overflow::new creates a Overflow as expected.
#[test]
fn overflow_new_correct() {
    let expected = Overflow {
        col: 1,
        row: 1,
        kind: None,
    };
    let actual = Overflow::new(1, 1);
    assert_eq!(expected, actual);
}

/// Test Overflow::kind sets the type kind.
#[test]
fn kind_correct() {
    let kind = Some("i8".to_owned());
    let actual = Overflow::new(1, 1).kind("i8").kind;
    assert_eq!(kind, actual);
}

/// Test Overflow::fmt formats with no set type kind.
#[test]
fn fmt_none() {
    let expected = "Overflow error at (1, 1)".to_owned();
    let actual = Overflow::new(1, 1).to_string();
    assert_eq!(expected, actual);
}

/// Test Overflow::fmt formats with a type kind.
#[test]
fn fmt_type() {
    let expected = "Overflow error for i8 type at (1, 1)".to_owned();
    let actual = Overflow::new(1, 1).kind("i8").to_string();
    assert_eq!(expected, actual);
}

/// Test Syntax::expected sets the expected value.
#[test]
fn error_expected_correct() {
    let expected = Some("a".to_owned());
    let actual = Syntax::new(1, 1).expected("a").expected;
    assert_eq!(expected, actual);
}

/// Test Syntax::unexpected sets the unexpected value.
#[test]
fn error_unexpected_correct() {
    let expected = Some("a".to_owned());
    let actual = Syntax::new(1, 1).unexpected("a").unexpected;
    assert_eq!(expected, actual);
}

/// Test Syntax::fmt formats with no expected or unexpected values.
#[test]
fn error_fmt_none() {
    let expected = "Syntax error at (1, 1)".to_owned();
    let actual = Syntax::new(1, 1).to_string();
    assert_eq!(expected, actual);
}

/// Test Syntax::fmt formats with an expected value.
#[test]
fn error_fmt_expected() {
    let expected = "Syntax error, expected \"a\" at (1, 1)".to_owned();
    let actual = Syntax::new(1, 1).expected("a").to_string();
    assert_eq!(expected, actual);
}

/// Test Syntax::fmt formats with an unexpected value.
#[test]
fn error_fmt_unexpected() {
    let expected = "Syntax error, unexpected \"b\" at (1, 1)".to_owned();
    let actual = Syntax::new(1, 1).unexpected("b").to_string();
    assert_eq!(expected, actual);
}

/// Test Syntax::fmt formats with expected and unexpected values.
#[test]
fn error_fmt_both() {
    let expected = "Syntax error, unexpected \"b\", expected \"a\" at (1, 1)".to_owned();
    let actual = Syntax::new(1, 1).unexpected("b").expected("a").to_string();
    assert_eq!(expected, actual);
}
