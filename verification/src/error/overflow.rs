//! The overflow error: a value whose syntax is valid but which the wanted
//! type cannot hold.

use crate::error::syntax::{optional_text, place, push_place};
use vstd::prelude::*;

verus! {

/// Overflow error to signify that an overflow was located.
#[derive(Clone, Debug, Eq, Ord, PartialEq, PartialOrd)]
pub struct Overflow {
    /// The column where the overflow error occurs.
    pub col: usize,
    /// The row where the overflow error occurs.
    pub row: usize,
    /// What kind of value overflowed.
    pub kind: Option<String>,
}

/// What an overflow error says: where it was detected, and the name of the
/// type that cannot hold the value, where it is known.
pub struct OverflowView {
    pub row: nat,
    pub col: nat,
    pub kind: Option<Seq<char>>,
}

impl OverflowView {
    /// The one-line message of the error.
    pub open spec fn text(self) -> Seq<char> {
        match self.kind {
            None => "Overflow error"@ + place(self.row, self.col),
            Some(k) => "Overflow error for "@ + k + " type"@ + place(self.row, self.col),
        }
    }
}

impl View for Overflow {
    type V = OverflowView;

    open spec fn view(&self) -> OverflowView {
        OverflowView {
            row: self.row as nat,
            col: self.col as nat,
            kind: optional_text(self.kind),
        }
    }
}

impl Overflow {
    /// Create a new Overflow error at a position, with no type named yet.
    #[must_use]
    pub fn new(row: usize, col: usize) -> (r: Self)
        ensures
            r@ == (OverflowView { row: row as nat, col: col as nat, kind: None }),
    {
        Self { col, row, kind: None }
    }

    /// Set the type kind, to notify the user what type overflowed.
    #[must_use]
    pub fn kind(self, kind: &str) -> (r: Self)
        ensures
            r@ == (OverflowView { kind: Some(kind@), ..self@ }),
    {
        Self { col: self.col, row: self.row, kind: Some(kind.to_owned()) }
    }

    /// The one-line message of the error.
    pub fn to_string(&self) -> (text: String)
        ensures
            text@ == self@.text(),
    {
        let mut text = String::from_str("Overflow error");
        match &self.kind {
            None => {},
            Some(k) => {
                text.append(" for ");
                text.append(k.as_str());
                text.append(" type");
            },
        }
        push_place(&mut text, self.row, self.col);
        proof {
            reveal_strlit("Overflow error for ");
            reveal_strlit("Overflow error");
            reveal_strlit(" for ");
            assert("Overflow error for "@ =~= "Overflow error"@ + " for "@);
            assert(text@ =~= self@.text());
        }
        text
    }
}

} // verus!
