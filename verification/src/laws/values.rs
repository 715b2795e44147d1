//! Values that are no tuples are read back as they were written.

use crate::decimal::{
    decimal, digits, lemma_digits_shape, lemma_parse_decimal, lemma_read_digits, lemma_read_prefix,
    parse, read_digits, Malformed, Reading,
};
use crate::deserialize::grammar::{
    decode, decode_integer, decode_text, decode_word, failed, find, leading_zero,
    lemma_advance_concat, names_unsigned, rescan, rescan_from, syntax, Outcome, Position,
};
use crate::laws::escaping::unescape_inverts_escape;
use crate::laws::scanning::{lemma_passes, lemma_passes_escaped, outside};
use crate::serialize::notation::{encode, escape, quote};
use crate::text::{
    digit, leading_spaces, lemma_leading_spaces, lemma_trailing_spaces, trim_end, whitespace,
};
use crate::value::{inhabits, Integer, Shape, Value};
use vstd::prelude::*;

verus! {

/// Whether `s` holds nothing but whitespace.
pub open spec fn blank(s: Seq<char>) -> bool {
    forall|j: int| 0 <= j < s.len() ==> whitespace(#[trigger] s[j])
}

/// Whether `s` is a text with no whitespace at either end.
pub open spec fn tight(s: Seq<char>) -> bool {
    s.len() > 0 && !whitespace(s[0]) && !whitespace(s.last())
}

/// A tight text behind whitespace is found again by skipping the
/// whitespace and trimming the end.
pub(crate) proof fn lemma_padded(pad: Seq<char>, body: Seq<char>)
    requires
        blank(pad),
        tight(body),
    ensures
        leading_spaces(pad + body) == pad.len(),
        (pad + body).take(pad.len() as int) == pad,
        (pad + body).skip(pad.len() as int) == body,
        trim_end(body) == body,
{
    let s = pad + body;
    assert forall|j: int| 0 <= j < pad.len() implies whitespace(#[trigger] s[j]) by {
        assert(s[j] == pad[j]);
    }
    assert(s[pad.len() as int] == body[0]);
    lemma_leading_spaces(s, pad.len() as int);
    lemma_trailing_spaces(body, 0);
    assert(s.take(pad.len() as int) =~= pad);
    assert(s.skip(pad.len() as int) =~= body);
    assert(body.take(body.len() as int) =~= body);
}

/// A word behind whitespace is read as the value it stands for.
pub(crate) proof fn lemma_word(
    at: Position,
    pad: Seq<char>,
    word: Seq<char>,
    expected: Seq<char>,
    value: Value,
)
    requires
        blank(pad),
        tight(word),
    ensures
        decode_word(at, pad + word, word, expected, value) == (Outcome {
            after: at.advance(pad + word),
            result: Ok(value),
        }),
{
    lemma_padded(pad, word);
}

/// The canonical text of an integer has no whitespace at either end and no
/// zero in front of other digits.
pub(crate) proof fn lemma_decimal_shape(i: int)
    ensures
        tight(decimal(i)),
        !leading_zero(decimal(i)),
        forall|j: int|
            0 <= j < decimal(i).len() ==> digit(#[trigger] decimal(i)[j]) || decimal(i)[j] == '-',
{
    if i < 0 {
        let n = (-i) as nat;
        lemma_digits_shape(n);
        assert(decimal(i).last() == digits(n).last());
        assert forall|j: int| 0 <= j < decimal(i).len() implies digit(#[trigger] decimal(i)[j])
            || decimal(i)[j] == '-' by {
            if j > 0 {
                assert(decimal(i)[j] == digits(n)[j - 1]);
            }
        }
    } else {
        let n = i as nat;
        lemma_digits_shape(n);
        assert(digit(digits(n)[0]));
        assert(digit(digits(n).last()));
        if digits(n).len() > 1 {
            assert(n >= 10);
        }
    }
}

/// The canonical text of an integer behind whitespace is read as that
/// integer, in every type that holds it.
pub(crate) proof fn lemma_integer(at: Position, pad: Seq<char>, i: int, kind: Integer)
    requires
        blank(pad),
        kind.min() <= i <= kind.max(),
    ensures
        decode_integer(at, pad + decimal(i), kind) == (Outcome {
            after: at.advance(pad + decimal(i)),
            result: Ok(Value::Int(i)),
        }),
{
    lemma_decimal_shape(i);
    lemma_padded(pad, decimal(i));
    lemma_parse_decimal(i, kind.min(), kind.max());
}

/// A quoted text behind whitespace is read as the text it was written for;
/// with `single`, as the one character of that text.
pub(crate) proof fn lemma_text(at: Position, pad: Seq<char>, text: Seq<char>, single: bool)
    requires
        blank(pad),
        single ==> text.len() == 1,
    ensures
        decode_text(at, pad + quote(text), single) == (Outcome {
            after: at.advance(pad + quote(text)),
            result: Ok(
                if single {
                    Value::Char(text[0])
                } else {
                    Value::Text(text)
                },
            ),
        }),
{
    let q = quote(text);
    let e = escape(text);
    let start = at.advance(pad);
    assert(q[0] == '"');
    assert(q.last() == '"');
    lemma_padded(pad, q);
    let inner = q.skip(1);
    assert(inner =~= e + seq!['"']);
    assert(inner.subrange(0, e.len() as int) =~= e);
    lemma_passes_escaped(inner, 0, text, outside(), '"');
    lemma_passes(inner, 0, e.len() as int, outside(), '"');
    assert(inner[e.len() as int] == '"');
    assert(find(inner, '"') == Some(e.len() as int));
    assert(inner.take(e.len() as int) =~= e);
    unescape_inverts_escape(text);
    let used = e.len() as int + 2;
    assert(q.take(used) =~= q);
    assert(q.skip(used) =~= Seq::<char>::empty());
    assert(q.skip(used).take(0) =~= Seq::<char>::empty());
    lemma_advance_concat(at, pad, q);
}

/// A value that is no tuple, written behind whitespace, is read as itself.
pub(crate) proof fn lemma_value(at: Position, pad: Seq<char>, value: Value, shape: Shape)
    requires
        blank(pad),
        inhabits(value, shape),
        !shape.nests(),
    ensures
        decode(at, shape, pad + encode(value)) == (Outcome {
            after: at.advance(pad + encode(value)),
            result: Ok(value),
        }),
{
    reveal_strlit("null");
    reveal_strlit("true");
    reveal_strlit("false");
    match value {
        Value::Unit => {
            lemma_word(at, pad, "null"@, "null"@, value);
        },
        Value::Bool(b) => {
            if b {
                lemma_padded(pad, "true"@);
                lemma_word(at, pad, "true"@, "bool"@, value);
                assert("true"@[0] != "false"@[0]);
            } else {
                lemma_padded(pad, "false"@);
                lemma_word(at, pad, "false"@, "bool"@, value);
            }
        },
        Value::Int(i) => {
            lemma_integer(at, pad, i, shape->Int_0);
        },
        Value::Char(c) => {
            lemma_text(at, pad, seq![c], true);
        },
        Value::Text(text) => {
            lemma_text(at, pad, text, false);
        },
        Value::Tuple(_) => {},
    }
}


/// The text of a value that is no tuple has no whitespace at either end.
pub(crate) proof fn lemma_encode_tight(value: Value)
    requires
        !(value is Tuple),
    ensures
        tight(encode(value)),
{
    reveal_strlit("null");
    reveal_strlit("true");
    reveal_strlit("false");
    match value {
        Value::Int(i) => {
            lemma_decimal_shape(i);
        },
        Value::Char(c) => {
            assert(quote(seq![c])[0] == '"');
            assert(quote(seq![c]).last() == '"');
        },
        Value::Text(text) => {
            assert(quote(text)[0] == '"');
            assert(quote(text).last() == '"');
        },
        _ => {},
    }
}

/// A walk over a text without a line feed stays in its row and moves one
/// column to the right for each character.
pub(crate) proof fn lemma_advance_plain(at: Position, s: Seq<char>)
    requires
        forall|j: int| 0 <= j < s.len() ==> #[trigger] s[j] != '\n',
    ensures
        at.advance(s) == (Position { row: at.row, col: at.col + s.len() }),
    decreases s.len(),
{
    if s.len() > 0 {
        assert(s.last() != '\n');
        assert forall|j: int| 0 <= j < s.drop_last().len() implies #[trigger] s.drop_last()[j]
            != '\n' by {
            assert(s.drop_last()[j] == s[j]);
        }
        lemma_advance_plain(at, s.drop_last());
    }
}

/// The digits of a number with a character behind them that is no digit
/// are read as far as that character.
proof fn lemma_read_then(n: nat, limit: nat, c: char, more: Seq<char>)
    requires
        n <= limit,
        !digit(c),
    ensures
        read_digits(digits(n) + seq![c] + more, limit) == Reading::Invalid,
{
    let s = digits(n) + seq![c] + more;
    let k = digits(n).len() as int + 1;
    lemma_read_digits(n, limit);
    assert(s.take(k).drop_last() =~= digits(n));
    assert(s.take(k).last() == c);
    lemma_read_prefix(s, k, limit);
}

/// The walk over a malformed number passes a stretch of digits, a column
/// each.
proof fn lemma_rescan_digits(
    at: Position,
    s: Seq<char>,
    i: int,
    j: int,
    dot: bool,
    kind: Seq<char>,
)
    requires
        0 <= i <= j <= s.len(),
        forall|k: int| i <= k < j ==> digit(#[trigger] s[k]),
    ensures
        rescan_from(at, s, i, dot, kind) == rescan_from(
            Position { row: at.row, col: (at.col + (j - i)) as nat },
            s,
            j,
            dot,
            kind,
        ),
    decreases j - i,
{
    if i < j {
        assert(digit(s[i]));
        lemma_rescan_digits(at.right(), s, i + 1, j, dot, kind);
    }
}

/// The name of a signed type does not begin with `u`.
proof fn lemma_signed_name(kind: Integer)
    ensures
        kind.signed() ==> !names_unsigned(kind.name()),
{
    reveal_strlit("i8");
    reveal_strlit("i16");
    reveal_strlit("i32");
    reveal_strlit("i64");
    reveal_strlit("i128");
    reveal_strlit("isize");
}

/// The canonical text of an integer with a character behind it that is
/// no digit denotes no number: the character is an invalid digit.
proof fn lemma_then_parse(i: int, kind: Integer, c: char, more: Seq<char>)
    requires
        kind.min() <= i <= kind.max(),
        !digit(c),
    ensures
        parse(decimal(i) + seq![c] + more, kind.min(), kind.max()) == Err::<int, Malformed>(
            Malformed::InvalidDigit,
        ),
{
    let text = decimal(i) + seq![c] + more;
    if i < 0 {
        let n = (-i) as nat;
        lemma_digits_shape(n);
        lemma_read_then(n, (-kind.min()) as nat, c, more);
        assert(text.skip(1) =~= digits(n) + seq![c] + more);
        assert(text[0] == '-');
    } else {
        let n = i as nat;
        lemma_digits_shape(n);
        lemma_read_then(n, kind.max() as nat, c, more);
        assert(text[0] == digits(n)[0]);
        assert(digit(text[0]));
    }
}

/// The walk over the canonical text of an integer with a character behind
/// it that no number holds stops at that character.
proof fn lemma_then_rescan(at: Position, i: int, kind: Integer, c: char, more: Seq<char>)
    requires
        kind.min() <= i <= kind.max(),
        !digit(c) && c != '-' && c != '.' && !whitespace(c),
    ensures
        ({
            let seen = Position { row: at.row, col: at.col + decimal(i).len() };
            rescan(at, decimal(i) + seq![c] + more, kind.name()) == failed(
                seen,
                syntax(seen, None, Some(seq![c])),
            )
        }),
{
    let number = decimal(i);
    let text = number + seq![c] + more;
    let name = kind.name();
    let len = number.len() as int;
    lemma_signed_name(kind);
    if i < 0 {
        let n = (-i) as nat;
        lemma_digits_shape(n);
        assert(text[0] == '-');
        assert forall|k: int| 1 <= k < len implies digit(#[trigger] text[k]) by {
            assert(text[k] == digits(n)[k - 1]);
        }
        assert(rescan_from(at, text, 0, false, name) == rescan_from(
            at.right(),
            text,
            1,
            false,
            name,
        ));
        lemma_rescan_digits(at.right(), text, 1, len, false, name);
    } else {
        let n = i as nat;
        lemma_digits_shape(n);
        assert forall|k: int| 0 <= k < len implies digit(#[trigger] text[k]) by {
            assert(text[k] == digits(n)[k]);
        }
        lemma_rescan_digits(at, text, 0, len, false, name);
    }
    assert(text[len] == c);
}

/// The canonical text of an integer with a character behind it that no
/// number holds is a malformed number: the walk over it reports that
/// character, behind the integer.
pub(crate) proof fn lemma_integer_then(
    at: Position,
    pad: Seq<char>,
    i: int,
    kind: Integer,
    c: char,
    more: Seq<char>,
)
    requires
        blank(pad),
        kind.min() <= i <= kind.max(),
        !digit(c) && c != '-' && c != '.' && !whitespace(c),
        more.len() > 0 ==> !whitespace(more.last()),
    ensures
        ({
            let seen = at.advance(pad + decimal(i));
            decode_integer(at, pad + (decimal(i) + seq![c] + more), kind) == failed(
                seen,
                syntax(seen, None, Some(seq![c])),
            )
        }),
{
    let number = decimal(i);
    let text = number + seq![c] + more;
    let start = at.advance(pad);
    lemma_decimal_shape(i);
    assert(text[0] == number[0]);
    assert(text.last() == if more.len() > 0 {
        more.last()
    } else {
        c
    });
    lemma_padded(pad, text);
    if number.len() > 1 {
        assert(text[1] == number[1]);
    } else {
        assert(text[1] == c);
    }
    assert(!leading_zero(text));
    lemma_then_parse(i, kind, c, more);
    lemma_then_rescan(start, i, kind, c, more);
    assert forall|k: int| 0 <= k < number.len() implies #[trigger] number[k] != '\n' by {}
    lemma_advance_plain(start, number);
    lemma_advance_concat(at, pad, number);
}

} // verus!
