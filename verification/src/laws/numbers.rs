//! The bounds of the integer types and the rule against a leading zero.

use crate::decimal::{decimal, digits, lemma_digits_shape, lemma_read_digits, read_digits, Reading};
use crate::deserialize::grammar::{
    decode, failed, leading_zero, lemma_advance_one, overflow, syntax, Outcome, Position,
};
use crate::laws::tuples::round_trip;
use crate::laws::values::lemma_padded;
use crate::text::{leading_spaces, trim_end};
use crate::value::{Integer, Shape, Value};
use vstd::prelude::*;

verus! {

/// A number with one more digit behind it is ten times the number and
/// that digit: where this passes the limit, reading it overflows.
pub(crate) proof fn lemma_read_one_more(n: nat, limit: nat)
    requires
        0 < n <= limit,
        n * 10 > limit,
    ensures
        read_digits(digits(n).push('0'), limit) == Reading::Overflow,
{
    lemma_read_digits(n, limit);
    let text = digits(n).push('0');
    assert(text.drop_last() =~= digits(n));
    assert(text.last() == '0');
}

/// Overflow boundary. The largest value of an integer type with a zero
/// written behind it is reported as an overflow of that type, at the
/// start of the number; so is the smallest value of a signed type.
/// The smallest value of an unsigned type is zero, and `00` falls under
/// the rule against a leading zero.
pub proof fn overflow_boundary(at: Position, kind: Integer)
    ensures
        decode(at, Shape::Int(kind), decimal(kind.max()).push('0')) == failed(
            at,
            overflow(at, kind.name()),
        ),
        kind.signed() ==> decode(at, Shape::Int(kind), decimal(kind.min()).push('0')) == failed(
            at,
            overflow(at, kind.name()),
        ),
        !kind.signed() ==> decode(at, Shape::Int(kind), decimal(kind.min()).push('0')) == failed(
            at,
            syntax(at, Some("1-9"@), Some("0"@)),
        ),
{
    let pad = Seq::<char>::empty();
    let high = kind.max() as nat;
    let above = decimal(kind.max()).push('0');
    lemma_digits_shape(high);
    assert(above[0] == digits(high)[0]);
    assert(above.last() == '0');
    lemma_padded(pad, above);
    assert(pad + above =~= above);
    lemma_read_one_more(high, high);
    assert(above.take(0) =~= pad);
    if !kind.signed() {
        let zeros = decimal(kind.min()).push('0');
        assert(zeros[0] == '0' && zeros[1] == '0');
        lemma_padded(pad, zeros);
        assert(pad + zeros =~= zeros);
        assert(zeros.take(0) =~= pad);
    }
    if kind.signed() {
        let low = (-kind.min()) as nat;
        let below = decimal(kind.min()).push('0');
        lemma_digits_shape(low);
        assert(below[0] == '-');
        assert(below.last() == '0');
        lemma_padded(pad, below);
        assert(pad + below =~= below);
        lemma_read_one_more(low, low);
        assert(below.skip(1) =~= digits(low).push('0'));
        assert(below.take(0) =~= pad);
    }
}

/// Leading-zero rule. A number that begins with a zero which further
/// digits follow is refused for every integer type, at the place of the
/// zero: the zero was unexpected, a digit from one to nine expected. The
/// zero alone is read as zero.
pub proof fn leading_zero_rule(at: Position, kind: Integer, input: Seq<char>)
    ensures
        ({
            let start = at.advance(input.take(leading_spaces(input) as int));
            leading_zero(trim_end(input.skip(leading_spaces(input) as int))) ==> decode(
                at,
                Shape::Int(kind),
                input,
            ) == failed(start, syntax(start, Some("1-9"@), Some("0"@)))
        }),
        decode(at, Shape::Int(kind), seq!['0']) == (Outcome {
            after: at.right(),
            result: Ok(Value::Int(0)),
        }),
{
    round_trip(at, Shape::Int(kind), Value::Int(0));
    lemma_advance_one(at, '0');
}

} // verus!
