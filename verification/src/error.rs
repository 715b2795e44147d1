//! The errors of the library: what went wrong, and where in the input.

mod overflow;
mod syntax;

pub use overflow::{Overflow, OverflowView};
pub use syntax::{optional_text, place, push_place, Syntax, SyntaxView};
use vstd::prelude::*;
use vstd::std_specs::convert::FromSpecImpl;

verus! {

/// The available error types. These represent all the error types
/// encountered through the library.
#[derive(Clone, Copy, Debug, Eq, Ord, PartialEq, PartialOrd, Structural)]
pub enum Kind {
    /// A general error: the library was misused.
    General,
    /// A syntax error: the input does not match the grammar.
    Syntax,
    /// An overflow error: the wanted type cannot hold the value.
    Overflow,
}

/// Generic error which is used when providing an error from the library.
#[derive(Clone, Debug, Eq, Ord, PartialEq, PartialOrd)]
pub struct Error {
    /// The error message.
    pub message: String,
    /// The error kind.
    pub kind: Kind,
}

/// What an error holds: its kind and its one-line message.
pub struct ErrorView {
    pub message: Seq<char>,
    pub kind: Kind,
}

/// What can go wrong, before it is put into words: a mismatch with the
/// grammar, a value out of range, or a misuse of the library.
pub enum ParseError {
    Syntax(SyntaxView),
    Overflow(OverflowView),
    General(Seq<char>),
}

impl ParseError {
    /// The error as the library hands it out: the kind, and the message
    /// that renders what is known.
    pub open spec fn error(self) -> ErrorView {
        match self {
            ParseError::Syntax(s) => ErrorView { message: s.text(), kind: Kind::Syntax },
            ParseError::Overflow(o) => ErrorView { message: o.text(), kind: Kind::Overflow },
            ParseError::General(m) => ErrorView { message: m, kind: Kind::General },
        }
    }
}

impl View for Error {
    type V = ErrorView;

    open spec fn view(&self) -> ErrorView {
        ErrorView { message: self.message@, kind: self.kind }
    }
}

impl Error {
    /// Create a new general Error with the given message.
    #[must_use]
    pub fn new(message: &str) -> (e: Self)
        ensures
            e@ == ParseError::General(message@).error(),
    {
        Self { message: message.to_owned(), kind: Kind::General }
    }

    /// The error as one line: the message after `[Error]: `.
    pub fn to_string(&self) -> (text: String)
        ensures
            text@ == "[Error]: "@ + self@.message,
    {
        let mut text = String::from_str("[Error]: ");
        text.append(self.message.as_str());
        text
    }
}

impl From<Syntax> for Error {
    /// Convert from a syntax error into an Error that holds its message.
    fn from(item: Syntax) -> (e: Self)
        ensures
            e@ == ParseError::Syntax(item@).error(),
    {
        Self { message: item.to_string(), kind: Kind::Syntax }
    }
}

/// Two texts with the same characters are not known to be one value, so
/// what `from` returns is stated by its own `ensures`, over the views.
impl FromSpecImpl<Syntax> for Error {
    open spec fn obeys_from_spec() -> bool {
        false
    }

    open spec fn from_spec(item: Syntax) -> Self {
        arbitrary()
    }
}

impl From<Overflow> for Error {
    /// Convert from an overflow error into an Error that holds its message.
    fn from(item: Overflow) -> (e: Self)
        ensures
            e@ == ParseError::Overflow(item@).error(),
    {
        Self { message: item.to_string(), kind: Kind::Overflow }
    }
}

/// As for a syntax error: `from` states the conversion over the views.
impl FromSpecImpl<Overflow> for Error {
    open spec fn obeys_from_spec() -> bool {
        false
    }

    open spec fn from_spec(item: Overflow) -> Self {
        arbitrary()
    }
}

} // verus!
