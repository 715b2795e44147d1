//! Which kind of error reading can fail with.

use crate::deserialize::grammar::{
    closing, decode, decode_elements, find, lemma_rescan_syntax, Position,
};
use crate::error::ParseError;
use crate::text::{leading_spaces, trim_end};
use crate::value::{Shape, Value};
use vstd::prelude::*;

verus! {

/// Whether values of the shape have a magnitude or a length that a type
/// can fail to hold: integers and characters, and tuples that hold one.
pub open spec fn measured(shape: Shape) -> bool
    decreases shape,
{
    match shape {
        Shape::Int(_) => true,
        Shape::Char => true,
        Shape::Tuple(shapes) => exists|i: int|
            0 <= i < shapes.len() && measured(#[trigger] shapes[i]),
        _ => false,
    }
}

/// A tuple with a measured element is measured.
pub(crate) proof fn lemma_measured(shapes: Seq<Shape>, i: int)
    requires
        0 <= i < shapes.len(),
        measured(shapes[i]),
    ensures
        measured(Shape::Tuple(shapes)),
{
    let whole = Shape::Tuple(shapes);
    assert(whole->Tuple_0 == shapes);
    assert(measured(whole) == (exists|j: int|
        0 <= j < shapes.len() && measured(#[trigger] shapes[j])));
}

/// Whether an error is a syntax error, or an overflow with the type named
/// where `measured` allows for one.
pub open spec fn sorted(result: Result<Value, ParseError>, measured: bool) -> bool {
    match result {
        Err(ParseError::General(_)) => false,
        Err(ParseError::Overflow(o)) => measured && o.kind is Some,
        _ => true,
    }
}

/// Errors by kind. Reading never fails with a general error, and it
/// reports an overflow only where the shape holds an integer or a
/// character, under the name of a type: every other error, whatever the
/// shape and the input, is a syntax error.
pub proof fn errors_by_kind(at: Position, shape: Shape, input: Seq<char>)
    ensures
        sorted(decode(at, shape, input).result, measured(shape)),
    decreases shape, 1nat, 0nat,
{
    match shape {
        Shape::Int(kind) => {
            let n = leading_spaces(input) as int;
            lemma_rescan_syntax(
                at.advance(input.take(n)),
                trim_end(input.skip(n)),
                0,
                false,
                kind.name(),
            );
        },
        Shape::Tuple(shapes) => {
            let n = leading_spaces(input) as int;
            let rest = input.skip(n);
            if rest.len() > 0 && rest[0] == '[' {
                lemma_elements_by_kind(
                    at.advance(input.take(n)).right(),
                    shapes,
                    0,
                    rest.skip(1),
                    Seq::empty(),
                );
            }
        },
        _ => {},
    }
}

/// As `errors_by_kind`, for the elements of a tuple.
pub(crate) proof fn lemma_elements_by_kind(
    at: Position,
    shapes: Seq<Shape>,
    i: int,
    rest: Seq<char>,
    values: Seq<Value>,
)
    ensures
        sorted(
            decode_elements(at, shapes, i, rest, values).result,
            measured(Shape::Tuple(shapes)),
        ),
    decreases shapes, 0nat, shapes.len() - i,
{
    if 0 <= i < shapes.len() {
        let until = closing(i, shapes.len() as int);
        match find(rest, until) {
            None => {},
            Some(k) => {
                let element = decode(at, shapes[i], rest.take(k));
                errors_by_kind(at, shapes[i], rest.take(k));
                match element.result {
                    Err(e) => {
                        if e is Overflow {
                            lemma_measured(shapes, i);
                        }
                    },
                    Ok(v) => {
                        lemma_elements_by_kind(
                            element.after.right(),
                            shapes,
                            i + 1,
                            rest.skip(k + 1),
                            values.push(v),
                        );
                    },
                }
            },
        }
    }
}

} // verus!
