//! The syntax error: a text that does not match the grammar at a position.

use crate::decimal::{decimal, render_unsigned};
use vstd::prelude::*;

verus! {

/// Syntax error to signify that invalid syntax was located.
#[derive(Clone, Debug, Eq, Ord, PartialEq, PartialOrd)]
pub struct Syntax {
    /// The column where the syntax error occurs.
    pub col: usize,
    /// What was expected.
    pub expected: Option<String>,
    /// The row where the syntax error occurs.
    pub row: usize,
    /// What was found that was unexpected and caused the error.
    pub unexpected: Option<String>,
}

/// What a syntax error says: where the mismatch was detected, and what was
/// expected and what was found there, as far as either is known.
pub struct SyntaxView {
    pub row: nat,
    pub col: nat,
    pub expected: Option<Seq<char>>,
    pub unexpected: Option<Seq<char>>,
}

/// The characters of an optional text.
pub open spec fn optional_text(text: Option<String>) -> Option<Seq<char>> {
    match text {
        Some(t) => Some(t@),
        None => None,
    }
}

/// The end of every positioned message: ` at (row, col)`.
pub open spec fn place(row: nat, col: nat) -> Seq<char> {
    " at ("@ + decimal(row as int) + ", "@ + decimal(col as int) + ")"@
}

impl SyntaxView {
    /// The one-line message of the error.
    pub open spec fn text(self) -> Seq<char> {
        match (self.expected, self.unexpected) {
            (None, None) => "Syntax error"@ + place(self.row, self.col),
            (None, Some(u)) => "Syntax error, unexpected \""@ + u + "\""@ + place(
                self.row,
                self.col,
            ),
            (Some(e), None) => "Syntax error, expected \""@ + e + "\""@ + place(
                self.row,
                self.col,
            ),
            (Some(e), Some(u)) => "Syntax error, unexpected \""@ + u + "\", expected \""@ + e
                + "\""@ + place(self.row, self.col),
        }
    }
}

impl View for Syntax {
    type V = SyntaxView;

    open spec fn view(&self) -> SyntaxView {
        SyntaxView {
            row: self.row as nat,
            col: self.col as nat,
            expected: optional_text(self.expected),
            unexpected: optional_text(self.unexpected),
        }
    }
}

/// Appends ` at (row, col)` to `text`.
pub fn push_place(text: &mut String, row: usize, col: usize)
    ensures
        final(text)@ == old(text)@ + place(row as nat, col as nat),
{
    let r = render_unsigned(row as u128);
    let c = render_unsigned(col as u128);
    text.append(" at (");
    text.append(r.as_str());
    text.append(", ");
    text.append(c.as_str());
    text.append(")");
    assert(text@ =~= old(text)@ + place(row as nat, col as nat));
}

impl Syntax {
    /// Create a new Syntax error at a position, with nothing said yet of
    /// what was expected or found.
    #[must_use]
    pub fn new(row: usize, col: usize) -> (r: Self)
        ensures
            r@ == (SyntaxView {
                row: row as nat,
                col: col as nat,
                expected: None,
                unexpected: None,
            }),
    {
        Self { col, expected: None, row, unexpected: None }
    }

    /// Set the expected value, to notify the user what was expected in the
    /// input.
    #[must_use]
    pub fn expected(self, expected: &str) -> (r: Self)
        ensures
            r@ == (SyntaxView { expected: Some(expected@), ..self@ }),
    {
        Self {
            col: self.col,
            expected: Some(expected.to_owned()),
            row: self.row,
            unexpected: self.unexpected,
        }
    }

    /// Set the unexpected value, to notify the user what was unexpected in
    /// the input.
    #[must_use]
    pub fn unexpected(self, unexpected: &str) -> (r: Self)
        ensures
            r@ == (SyntaxView { unexpected: Some(unexpected@), ..self@ }),
    {
        Self {
            col: self.col,
            expected: self.expected,
            row: self.row,
            unexpected: Some(unexpected.to_owned()),
        }
    }

    /// The one-line message of the error.
    pub fn to_string(&self) -> (text: String)
        ensures
            text@ == self@.text(),
    {
        let mut text = String::from_str("Syntax error");
        match (&self.expected, &self.unexpected) {
            (None, None) => {},
            (None, Some(u)) => {
                text.append(", unexpected \"");
                text.append(u.as_str());
                text.append("\"");
            },
            (Some(e), None) => {
                text.append(", expected \"");
                text.append(e.as_str());
                text.append("\"");
            },
            (Some(e), Some(u)) => {
                text.append(", unexpected \"");
                text.append(u.as_str());
                text.append("\", expected \"");
                text.append(e.as_str());
                text.append("\"");
            },
        }
        push_place(&mut text, self.row, self.col);
        proof {
            lemma_message_heads();
            assert(text@ =~= self@.text());
        }
        text
    }
}

/// The heads of the four messages begin alike, so a message can be built
/// from the common head and the part that tells them apart.
pub proof fn lemma_message_heads()
    ensures
        "Syntax error, unexpected \""@ == "Syntax error"@ + ", unexpected \""@,
        "Syntax error, expected \""@ == "Syntax error"@ + ", expected \""@,
{
    reveal_strlit("Syntax error, unexpected \"");
    reveal_strlit("Syntax error, expected \"");
    reveal_strlit("Syntax error");
    reveal_strlit(", unexpected \"");
    reveal_strlit(", expected \"");
    assert("Syntax error, unexpected \""@ =~= "Syntax error"@ + ", unexpected \""@);
    assert("Syntax error, expected \""@ =~= "Syntax error"@ + ", expected \""@);
}

} // verus!
