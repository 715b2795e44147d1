//! Where reading leaves the cursor.

use crate::deserialize::grammar::{
    closing, decode, decode_elements, decode_text, find, lemma_advance_bound,
    lemma_decode_consumes, lemma_find_from_bounds, rescan_from, Position,
};
use crate::laws::scanning::outside;
use crate::text::{leading_spaces, lemma_spaces_bounds, trim_end};
use crate::value::{Shape, Value};
use vstd::prelude::*;

verus! {

/// The cursor reflects the first character that was not consumed: a value
/// that was read took the whole input, and the cursor stands behind it.
pub proof fn value_takes_whole_input(at: Position, shape: Shape, input: Seq<char>)
    ensures
        decode(at, shape, input).result is Ok ==> decode(at, shape, input).after == at.advance(
            input,
        ),
{
    lemma_decode_consumes(at, shape, input);
}

/// Whether the cursor, having gone from `at` to `after` over a text of
/// `len` characters, went forward: to no earlier row, and by no more in
/// either count than the text is long.
pub open spec fn forward(at: Position, after: Position, len: nat) -> bool {
    &&& at.row <= after.row <= at.row + len
    &&& after.col <= at.col + len
}

/// The walk over a malformed number moves the cursor by no more than the
/// characters that are left, and never to an earlier row.
pub(crate) proof fn lemma_rescan_forward(
    at: Position,
    s: Seq<char>,
    i: int,
    dot: bool,
    kind: Seq<char>,
)
    requires
        0 <= i <= s.len(),
    ensures
        at.row <= rescan_from(at, s, i, dot, kind).after.row <= at.row + (s.len() - i),
        rescan_from(at, s, i, dot, kind).after.col <= at.col + (s.len() - i),
    decreases s.len() - i,
{
    if i < s.len() {
        lemma_rescan_forward(at.right(), s, i + 1, dot, kind);
        lemma_rescan_forward(at.right(), s, i + 1, true, kind);
    }
}

/// The cursor only moves forward. Whatever reading comes to, the cursor
/// is left in no earlier row than it started in, and neither count has
/// grown by more than the input is long.
pub proof fn cursor_moves_forward(at: Position, shape: Shape, input: Seq<char>)
    ensures
        forward(at, decode(at, shape, input).after, input.len()),
    decreases shape, 1nat, 0nat,
{
    let n = leading_spaces(input) as int;
    lemma_spaces_bounds(input);
    let start = at.advance(input.take(n));
    let rest = input.skip(n);
    lemma_spaces_bounds(rest);
    let text = trim_end(rest);
    lemma_advance_bound(at, input);
    lemma_advance_bound(at, input.take(n));
    match shape {
        Shape::Int(kind) => {
            lemma_rescan_forward(start, text, 0, false, kind.name());
        },
        Shape::Char => {
            lemma_text_forward(at, input, true);
        },
        Shape::Text => {
            lemma_text_forward(at, input, false);
        },
        Shape::Tuple(shapes) => {
            if rest.len() > 0 && rest[0] == '[' {
                lemma_elements_forward(start.right(), shapes, 0, rest.skip(1), Seq::empty());
            }
        },
        _ => {},
    }
}

/// As `cursor_moves_forward`, for a quoted text.
pub(crate) proof fn lemma_text_forward(at: Position, input: Seq<char>, single: bool)
    ensures
        forward(at, decode_text(at, input, single).after, input.len()),
{
    let n = leading_spaces(input) as int;
    lemma_spaces_bounds(input);
    let start = at.advance(input.take(n));
    let rest = input.skip(n);
    lemma_spaces_bounds(rest);
    let text = trim_end(rest);
    lemma_advance_bound(at, input.take(n));
    if text.len() > 0 && text[0] == '"' {
        let inner = text.skip(1);
        lemma_advance_bound(start, inner);
        lemma_find_from_bounds(inner, 0, outside(), '"');
        match find(inner, '"') {
            None => {},
            Some(k) => {
                let used = k + 2;
                let tail = rest.skip(used);
                lemma_spaces_bounds(tail);
                lemma_advance_bound(start, rest.take(used));
                lemma_advance_bound(
                    start.advance(rest.take(used)),
                    tail.take(leading_spaces(tail) as int),
                );
            },
        }
    }
}

/// As `cursor_moves_forward`, for the elements of a tuple.
pub(crate) proof fn lemma_elements_forward(
    at: Position,
    shapes: Seq<Shape>,
    i: int,
    rest: Seq<char>,
    values: Seq<Value>,
)
    ensures
        forward(at, decode_elements(at, shapes, i, rest, values).after, rest.len()),
    decreases shapes, 0nat, shapes.len() - i,
{
    if i < 0 || i >= shapes.len() {
        lemma_spaces_bounds(rest);
        lemma_advance_bound(at, rest.take(leading_spaces(rest) as int));
    } else {
        let until = closing(i, shapes.len() as int);
        lemma_advance_bound(at, rest);
        lemma_find_from_bounds(rest, 0, outside(), until);
        match find(rest, until) {
            None => {},
            Some(k) => {
                let element = decode(at, shapes[i], rest.take(k));
                cursor_moves_forward(at, shapes[i], rest.take(k));
                match element.result {
                    Err(e) => {},
                    Ok(v) => {
                        lemma_elements_forward(
                            element.after.right(),
                            shapes,
                            i + 1,
                            rest.skip(k + 1),
                            values.push(v),
                        );
                    },
                }
            },
        }
    }
}

} // verus!
