//! Tuples are read back as they were written, and a tuple of another
//! length is refused.

use crate::decimal::decimal;
use crate::deserialize::grammar::{
    closing, decode, decode_elements, decode_integer, failed, find, find_from,
    lemma_advance_concat, lemma_advance_one, syntax, Outcome, Position,
};
use crate::laws::scanning::{
    lemma_passes, lemma_passes_join, lemma_passes_plain, lemma_passes_value, outside, passes,
};
use crate::laws::values::{lemma_encode_tight, lemma_integer_then, lemma_value};
use crate::serialize::notation::{encode, encode_items};
use crate::text::{lemma_leading_spaces, whitespace};
use crate::value::{inhabits, Integer, Shape, Value};
use vstd::prelude::*;

verus! {

/// The space that stands in front of every element of a tuple but the
/// first.
pub open spec fn gap(i: int) -> Seq<char> {
    if i > 0 {
        seq![' ']
    } else {
        Seq::empty()
    }
}

/// The text of a written tuple from element `i` on: what stands behind
/// the opening bracket, or behind the comma in front of element `i`.
pub open spec fn written_from(items: Seq<Value>, i: int) -> Seq<char>
    decreases items.len() - i,
{
    if i < 0 || i >= items.len() {
        Seq::empty()
    } else {
        gap(i) + encode(items[i]) + seq![closing(i, items.len() as int)] + written_from(
            items,
            i + 1,
        )
    }
}

/// The first `n` elements as they are written, the delimiter behind them
/// and the rest of the tuple make up the whole of what stands behind the
/// opening bracket.
proof fn lemma_written(items: Seq<Value>, n: nat)
    requires
        1 <= n <= items.len(),
    ensures
        encode_items(items, n) + seq![closing(n - 1, items.len() as int)] + written_from(
            items,
            n as int,
        ) == written_from(items, 0),
    decreases n,
{
    reveal_strlit(", ");
    let arity = items.len() as int;
    if n == 1 {
        assert(gap(0) + encode(items[0]) =~= encode(items[0]));
    } else {
        lemma_written(items, (n - 1) as nat);
        let before = encode_items(items, (n - 1) as nat);
        let element = encode(items[n - 1]);
        let behind = seq![closing(n - 1, arity)] + written_from(items, n as int);
        assert(", "@ =~= seq![','] + seq![' ']);
        assert(written_from(items, n - 1) =~= seq![' '] + element + behind);
        assert(encode_items(items, n) + behind =~= before + seq![','] + (seq![' '] + element
            + behind));
        assert(encode_items(items, n) + seq![closing(n - 1, arity)] + written_from(
            items,
            n as int,
        ) =~= encode_items(items, n) + behind);
    }
}

/// Whether a shape is one whose values are read back as they were
/// written: a tuple has at least one element, and none of its elements is
/// a tuple itself.
pub open spec fn flat(shape: Shape) -> bool {
    match shape {
        Shape::Tuple(shapes) => shapes.len() > 0 && forall|i: int|
            0 <= i < shapes.len() ==> !(#[trigger] shapes[i]).nests(),
        _ => true,
    }
}

/// Whether the first elements of a tuple of the shapes `shapes` are the
/// values `items`, none of them a tuple.
pub open spec fn begins(items: Seq<Value>, shapes: Seq<Shape>) -> bool {
    &&& items.len() <= shapes.len()
    &&& forall|i: int|
        0 <= i < items.len() ==> inhabits(#[trigger] items[i], shapes[i]) && !shapes[i].nests()
}

/// One element of a written tuple is read where the reader expects the
/// delimiter that was written behind it: the element is read as itself,
/// and reading goes on behind the delimiter.
proof fn lemma_element(
    at: Position,
    shapes: Seq<Shape>,
    items: Seq<Value>,
    i: int,
    values: Seq<Value>,
)
    requires
        0 <= i < items.len(),
        i < shapes.len(),
        inhabits(items[i], shapes[i]),
        !shapes[i].nests(),
        closing(i, shapes.len() as int) == closing(i, items.len() as int),
    ensures
        ({
            let behind = at.advance(
                gap(i) + encode(items[i]) + seq![closing(i, items.len() as int)],
            );
            &&& decode_elements(at, shapes, i, written_from(items, i), values) == decode_elements(
                behind,
                shapes,
                i + 1,
                written_from(items, i + 1),
                values.push(items[i]),
            )
            &&& at.advance(written_from(items, i)) == behind.advance(written_from(items, i + 1))
        }),
{
    let rest = written_from(items, i);
    let until = closing(i, items.len() as int);
    let pad = gap(i);
    let element = encode(items[i]);
    let more = written_from(items, i + 1);
    let k = (pad.len() + element.len()) as int;
    assert(rest =~= (pad + element) + seq![until] + more);
    assert(rest.subrange(pad.len() as int, k) =~= element);
    assert(forall|j: int| 0 <= j < pad.len() ==> rest[j] == ' ');
    lemma_passes_plain(rest, 0, pad.len() as int, outside(), until);
    lemma_passes_value(rest, pad.len() as int, items[i], until);
    lemma_passes_join(rest, 0, pad.len() as int, k, outside(), until);
    lemma_passes(rest, 0, k, outside(), until);
    assert(rest[k] == until);
    assert(find(rest, until) == Some(k));
    assert(rest.take(k) =~= pad + element);
    assert(rest.skip(k + 1) =~= more);
    lemma_value(at, pad, items[i], shapes[i]);
    lemma_advance_one(at.advance(pad + element), until);
    lemma_advance_concat(at, pad + element, seq![until]);
    lemma_advance_concat(at, (pad + element) + seq![until], more);
}

/// The elements of a written tuple are read back one by one.
proof fn lemma_elements(at: Position, shapes: Seq<Shape>, items: Seq<Value>, i: int)
    requires
        0 <= i <= items.len(),
        flat(Shape::Tuple(shapes)),
        inhabits(Value::Tuple(items), Shape::Tuple(shapes)),
    ensures
        decode_elements(at, shapes, i, written_from(items, i), items.take(i)) == (Outcome {
            after: at.advance(written_from(items, i)),
            result: Ok(Value::Tuple(items)),
        }),
    decreases items.len() - i,
{
    if i >= items.len() {
        assert(items.take(i) =~= items);
        assert(written_from(items, i).take(0) =~= written_from(items, i));
    } else {
        assert(inhabits(items[i], shapes[i]));
        assert(!shapes[i].nests());
        lemma_element(at, shapes, items, i, items.take(i));
        let behind = at.advance(
            gap(i) + encode(items[i]) + seq![closing(i, items.len() as int)],
        );
        lemma_elements(behind, shapes, items, i + 1);
        assert(items.take(i).push(items[i]) =~= items.take(i + 1));
    }
}

/// Round trip. Reading the text that was written for a value gives the
/// value back, and leaves the cursor behind the text: for every unit,
/// boolean, integer of every width, character, text and tuple of them.
/// (A tuple inside a tuple is not read back: the scan for the outer
/// tuple's delimiter stops at the inner tuple's first comma or bracket.)
pub proof fn round_trip(at: Position, shape: Shape, value: Value)
    requires
        inhabits(value, shape),
        flat(shape),
    ensures
        decode(at, shape, encode(value)) == (Outcome {
            after: at.advance(encode(value)),
            result: Ok(value),
        }),
{
    match shape {
        Shape::Tuple(shapes) => {
            let items = value->Tuple_0;
            let text = encode(value);
            let body = written_from(items, 0);
            lemma_written(items, items.len());
            assert(written_from(items, items.len() as int) =~= Seq::<char>::empty());
            assert(text =~= seq!['['] + body);
            assert(text[0] == '[');
            lemma_leading_spaces(text, 0);
            assert(text.skip(0) =~= text);
            assert(text.take(0) =~= Seq::<char>::empty());
            assert(text.skip(1) =~= body);
            assert(items.take(0) =~= Seq::<Value>::empty());
            lemma_elements(at.right(), shapes, items, 0);
            lemma_advance_one(at, '[');
            lemma_advance_concat(at, seq!['['], body);
        },
        _ => {
            assert(Seq::<char>::empty() + encode(value) =~= encode(value));
            lemma_value(at, Seq::empty(), value, shape);
        },
    }
}

/// As `too_few_elements`, from element `i` on.
proof fn lemma_too_few(
    at: Position,
    shapes: Seq<Shape>,
    items: Seq<Value>,
    i: int,
    values: Seq<Value>,
)
    requires
        0 <= i < items.len() < shapes.len(),
        begins(items, shapes),
    ensures
        decode_elements(at, shapes, i, written_from(items, i), values) == failed(
            at.advance(written_from(items, i)),
            syntax(at.advance(written_from(items, i)), Some(seq![',']), Some(seq![']'])),
        ),
    decreases items.len() - i,
{
    assert(inhabits(items[i], shapes[i]) && !shapes[i].nests());
    if i + 1 < items.len() {
        lemma_element(at, shapes, items, i, values);
        let behind = at.advance(gap(i) + encode(items[i]) + seq![',']);
        lemma_too_few(behind, shapes, items, i + 1, values.push(items[i]));
    } else {
        let rest = written_from(items, i);
        let pad = gap(i);
        let element = encode(items[i]);
        let k = (pad.len() + element.len()) as int;
        assert(written_from(items, i + 1) =~= Seq::<char>::empty());
        assert(rest =~= (pad + element) + seq![']']);
        assert(rest.subrange(pad.len() as int, k) =~= element);
        assert(forall|j: int| 0 <= j < pad.len() ==> rest[j] == ' ');
        lemma_passes_plain(rest, 0, pad.len() as int, outside(), ',');
        lemma_passes_value(rest, pad.len() as int, items[i], ',');
        lemma_passes_join(rest, 0, pad.len() as int, k, outside(), ',');
        lemma_passes(rest, 0, k, outside(), ',');
        reveal_with_fuel(find_from, 2);
        assert(find_from(rest, k, outside(), ',') == None::<int>);
        assert(rest.last() == ']');
    }
}

/// Too few elements. Where a written tuple is read as a tuple with more
/// elements, the scan for the comma behind the last written element runs
/// to the end of the text: the closing bracket was unexpected there, a
/// comma expected.
pub proof fn too_few_elements(at: Position, shapes: Seq<Shape>, items: Seq<Value>)
    requires
        0 < items.len() < shapes.len(),
        begins(items, shapes),
    ensures
        ({
            let text = encode(Value::Tuple(items));
            decode(at, Shape::Tuple(shapes), text) == failed(
                at.advance(text),
                syntax(at.advance(text), Some(seq![',']), Some(seq![']'])),
            )
        }),
{
    let text = encode(Value::Tuple(items));
    let body = written_from(items, 0);
    lemma_written(items, items.len());
    assert(written_from(items, items.len() as int) =~= Seq::<char>::empty());
    assert(text =~= seq!['['] + body);
    assert(text[0] == '[');
    lemma_leading_spaces(text, 0);
    assert(text.skip(0) =~= text);
    assert(text.take(0) =~= Seq::<char>::empty());
    assert(text.skip(1) =~= body);
    lemma_too_few(at.right(), shapes, items, 0, Seq::empty());
    lemma_advance_one(at, '[');
    lemma_advance_concat(at, seq!['['], body);
}

/// What is written of a tuple from element `i` up to element `m`, the
/// delimiter behind the last of them left out.
pub open spec fn upto(items: Seq<Value>, i: int, m: int) -> Seq<char>
    decreases m - i,
{
    if i < 0 || i >= m || i >= items.len() {
        Seq::empty()
    } else if i + 1 < m {
        gap(i) + encode(items[i]) + seq![','] + upto(items, i + 1, m)
    } else {
        gap(i) + encode(items[i])
    }
}

/// The first `m` elements as they are written are the first `j` of them,
/// a comma, and what is written from element `j` up to element `m`.
proof fn lemma_upto(items: Seq<Value>, j: nat, m: nat)
    requires
        1 <= j <= m <= items.len(),
    ensures
        upto(items, 0, m as int) == encode_items(items, j) + if j < m {
            seq![','] + upto(items, j as int, m as int)
        } else {
            Seq::empty()
        },
    decreases j,
{
    reveal_strlit(", ");
    if j == 1 {
        assert(gap(0) + encode(items[0]) =~= encode(items[0]));
        assert(upto(items, 0, m as int) =~= encode_items(items, 1) + if 1 < m {
            seq![','] + upto(items, 1, m as int)
        } else {
            Seq::empty()
        });
    } else {
        lemma_upto(items, (j - 1) as nat, m);
        let before = encode_items(items, (j - 1) as nat);
        let element = encode(items[j - 1]);
        let behind = if j < m {
            seq![','] + upto(items, j as int, m as int)
        } else {
            Seq::empty()
        };
        assert(", "@ =~= seq![','] + seq![' ']);
        assert(upto(items, j - 1, m as int) =~= seq![' '] + element + behind);
        assert(encode_items(items, j) + behind =~= before + (seq![','] + (seq![' '] + element
            + behind)));
    }
}

/// What is written from an element on ends with the closing bracket, and
/// no whitespace stands in front of it.
proof fn lemma_written_end(items: Seq<Value>, i: int)
    requires
        0 <= i < items.len(),
        forall|j: int| 0 <= j < items.len() ==> !(#[trigger] items[j] is Tuple),
    ensures
        written_from(items, i).len() >= 2,
        written_from(items, i).last() == ']',
        !whitespace(written_from(items, i)[written_from(items, i).len() - 2]),
    decreases items.len() - i,
{
    let whole = written_from(items, i);
    let element = encode(items[i]);
    let more = written_from(items, i + 1);
    assert(!(items[i] is Tuple));
    lemma_encode_tight(items[i]);
    assert(whole =~= (gap(i) + element) + seq![closing(i, items.len() as int)] + more);
    if i + 1 < items.len() {
        lemma_written_end(items, i + 1);
        assert(whole.last() == more.last());
        assert(whole[whole.len() - 2] == more[more.len() - 2]);
    } else {
        assert(more =~= Seq::<char>::empty());
        assert(whole[whole.len() - 2] == element.last());
    }
}

/// A scan for the closing bracket passes all that is written from an
/// element on, up to the bracket at its end.
proof fn lemma_passes_written(s: Seq<char>, from: int, items: Seq<Value>, i: int)
    requires
        0 <= i < items.len(),
        0 <= from <= s.len(),
        s.subrange(from, s.len() as int) == written_from(items, i),
        forall|j: int| 0 <= j < items.len() ==> !(#[trigger] items[j] is Tuple),
    ensures
        from < s.len(),
        passes(s, from, s.len() - 1, outside(), ']') == Some(outside()),
    decreases items.len() - i,
{
    let whole = written_from(items, i);
    let pad = gap(i);
    let element = encode(items[i]);
    let more = written_from(items, i + 1);
    let start = from + pad.len();
    let end = start + element.len();
    assert(!(items[i] is Tuple));
    assert(whole =~= (pad + element) + seq![closing(i, items.len() as int)] + more);
    assert forall|k: int| from <= k < s.len() implies s[k] == whole[k - from] by {
        assert(s.subrange(from, s.len() as int)[k - from] == s[k]);
    }
    assert(s.subrange(start, end) =~= element);
    assert(forall|k: int| from <= k < start ==> s[k] == ' ');
    lemma_passes_plain(s, from, start, outside(), ']');
    lemma_passes_value(s, start, items[i], ']');
    lemma_passes_join(s, from, start, end, outside(), ']');
    if i + 1 < items.len() {
        assert(s[end] == ',');
        lemma_passes_plain(s, end, end + 1, outside(), ']');
        lemma_passes_join(s, from, end, end + 1, outside(), ']');
        assert(s.subrange(end + 1, s.len() as int) =~= more);
        lemma_passes_written(s, end + 1, items, i + 1);
        lemma_passes_join(s, from, end + 1, s.len() - 1, outside(), ']');
    } else {
        assert(more =~= Seq::<char>::empty());
    }
}

/// As `too_many_elements`, from element `i` on.
proof fn lemma_too_many(
    at: Position,
    shapes: Seq<Shape>,
    items: Seq<Value>,
    i: int,
    values: Seq<Value>,
    kind: Integer,
)
    requires
        0 <= i < shapes.len() < items.len(),
        forall|j: int|
            0 <= j < shapes.len() ==> inhabits(#[trigger] items[j], shapes[j])
                && !shapes[j].nests(),
        forall|j: int| 0 <= j < items.len() ==> !(#[trigger] items[j] is Tuple),
        shapes.last() == Shape::Int(kind),
    ensures
        ({
            let seen = at.advance(upto(items, i, shapes.len() as int));
            decode_elements(at, shapes, i, written_from(items, i), values) == failed(
                seen,
                syntax(seen, None, Some(seq![','])),
            )
        }),
    decreases shapes.len() - i,
{
    let m = shapes.len() as int;
    assert(inhabits(items[i], shapes[i]) && !shapes[i].nests());
    if i + 1 < m {
        lemma_element(at, shapes, items, i, values);
        let behind = at.advance(gap(i) + encode(items[i]) + seq![',']);
        lemma_too_many(behind, shapes, items, i + 1, values.push(items[i]), kind);
        assert(upto(items, i, m) =~= (gap(i) + encode(items[i]) + seq![',']) + upto(
            items,
            i + 1,
            m,
        ));
        lemma_advance_concat(at, gap(i) + encode(items[i]) + seq![','], upto(items, i + 1, m));
    } else {
        let rest = written_from(items, i);
        let more = written_from(items, i + 1);
        let number = items[i]->Int_0;
        let k = rest.len() - 1;
        assert(shapes[i] == Shape::Int(kind));
        assert(items[i] is Int);
        assert(upto(items, i, m) =~= gap(i) + decimal(number));
        assert(rest =~= (gap(i) + encode(items[i])) + seq![','] + more);
        assert(rest.subrange(0, rest.len() as int) =~= rest);
        lemma_written_end(items, i);
        lemma_written_end(items, i + 1);
        lemma_passes_written(rest, 0, items, i);
        lemma_passes(rest, 0, k, outside(), ']');
        assert(find(rest, ']') == Some(k));
        let trailing = more.drop_last();
        assert(trailing.last() == rest[rest.len() - 2]);
        assert(rest.take(k) =~= gap(i) + (decimal(number) + seq![','] + trailing));
        lemma_integer_then(at, gap(i), number, kind, ',', trailing);
        assert(decode(at, shapes[i], rest.take(k)) == decode_integer(at, rest.take(k), kind));
    }
}

/// Too many elements. Where a written tuple is read as a tuple with fewer
/// elements, the last of which is an integer, the text of that element
/// runs on to the closing bracket: the comma behind the integer was
/// unexpected, and is reported where it stands.
pub proof fn too_many_elements(
    at: Position,
    shapes: Seq<Shape>,
    items: Seq<Value>,
    kind: Integer,
)
    requires
        0 < shapes.len() < items.len(),
        forall|j: int|
            0 <= j < shapes.len() ==> inhabits(#[trigger] items[j], shapes[j])
                && !shapes[j].nests(),
        forall|j: int| 0 <= j < items.len() ==> !(#[trigger] items[j] is Tuple),
        shapes.last() == Shape::Int(kind),
    ensures
        ({
            let seen = at.advance(seq!['['] + encode_items(items, shapes.len()));
            decode(at, Shape::Tuple(shapes), encode(Value::Tuple(items))) == failed(
                seen,
                syntax(seen, None, Some(seq![','])),
            )
        }),
{
    let text = encode(Value::Tuple(items));
    let body = written_from(items, 0);
    lemma_written(items, items.len());
    assert(written_from(items, items.len() as int) =~= Seq::<char>::empty());
    assert(text =~= seq!['['] + body);
    assert(text[0] == '[');
    lemma_leading_spaces(text, 0);
    assert(text.skip(0) =~= text);
    assert(text.take(0) =~= Seq::<char>::empty());
    assert(text.skip(1) =~= body);
    lemma_too_many(at.right(), shapes, items, 0, Seq::empty(), kind);
    lemma_upto(items, shapes.len(), shapes.len());
    assert(upto(items, 0, shapes.len() as int) =~= encode_items(items, shapes.len()));
    lemma_advance_one(at, '[');
    lemma_advance_concat(at, seq!['['], upto(items, 0, shapes.len() as int));
}

} // verus!
