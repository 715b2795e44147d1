//! What the JSON-like codec writes: the one text of each value.

use crate::decimal::decimal;
use crate::value::Value;
use vstd::prelude::*;

verus! {

/// What stands for the character `c` inside a quoted text: a backslash
/// goes before a backslash and before a quote.
pub open spec fn escape_char(c: char) -> Seq<char> {
    if c == '\\' || c == '"' {
        seq!['\\', c]
    } else {
        seq![c]
    }
}

/// `s` with every backslash and every quote escaped. Escaping the
/// backslashes first and the quotes after them comes to the same text.
pub open spec fn escape(s: Seq<char>) -> Seq<char>
    decreases s.len(),
{
    if s.len() == 0 {
        Seq::empty()
    } else {
        escape_char(s[0]) + escape(s.skip(1))
    }
}

/// The quoted text for `s`.
pub open spec fn quote(s: Seq<char>) -> Seq<char> {
    seq!['"'] + escape(s) + seq!['"']
}

/// The text of `value`: `null`, `true` or `false`, the canonical decimal
/// text of a number, a quoted text, or the texts of a tuple's elements
/// between brackets, a comma and one space between two of them.
pub open spec fn encode(value: Value) -> Seq<char>
    decreases value, 0nat,
{
    match value {
        Value::Unit => "null"@,
        Value::Bool(b) => if b {
            "true"@
        } else {
            "false"@
        },
        Value::Int(i) => decimal(i),
        Value::Char(c) => quote(seq![c]),
        Value::Text(s) => quote(s),
        Value::Tuple(items) => seq!['['] + encode_items(items, items.len()) + seq![']'],
    }
}

/// The texts of the first `n` of `items`, joined by `, `.
pub open spec fn encode_items(items: Seq<Value>, n: nat) -> Seq<char>
    decreases items, n,
{
    if n == 0 || n > items.len() {
        Seq::empty()
    } else if n == 1 {
        encode(items[0])
    } else {
        encode_items(items, (n - 1) as nat) + ", "@ + encode(items[n - 1])
    }
}

} // verus!
