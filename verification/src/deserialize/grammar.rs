//! What the JSON-like codec reads: for a shape, a text and the position of
//! the text's first character, the value or the error, and the position
//! reached.

use crate::decimal::{parse, Malformed};
use crate::error::{OverflowView, ParseError, SyntaxView};
use crate::text::{digit, leading_spaces, trim_end, whitespace};
use crate::value::{Integer, Shape, Value};
use vstd::prelude::*;

verus! {

/// A place in the input: both counts start at one.
pub struct Position {
    pub row: nat,
    pub col: nat,
}

impl Position {
    /// The place one column to the right.
    pub open spec fn right(self) -> Position {
        Position { row: self.row, col: self.col + 1 }
    }

    /// The first column of the next row.
    pub open spec fn below(self) -> Position {
        Position { row: self.row + 1, col: 1 }
    }

    /// The place after the character `c`, which stands at this place.
    pub open spec fn step(self, c: char) -> Position {
        if c == '\n' {
            self.below()
        } else {
            self.right()
        }
    }

    /// The place after the characters of `s`, the first of which stands at
    /// this place.
    pub open spec fn advance(self, s: Seq<char>) -> Position
        decreases s.len(),
    {
        if s.len() == 0 {
            self
        } else {
            self.advance(s.drop_last()).step(s.last())
        }
    }

    /// Whether a text of `len` characters that starts here can be walked
    /// without a count leaving the machine's range.
    pub open spec fn fits(self, len: nat) -> bool {
        self.row + len <= usize::MAX && self.col + len <= usize::MAX
    }
}

/// A syntax error at `at`.
pub open spec fn syntax(
    at: Position,
    expected: Option<Seq<char>>,
    unexpected: Option<Seq<char>>,
) -> ParseError {
    ParseError::Syntax(SyntaxView { row: at.row, col: at.col, expected, unexpected })
}

/// An overflow error at `at` for the type named `kind`.
pub open spec fn overflow(at: Position, kind: Seq<char>) -> ParseError {
    ParseError::Overflow(OverflowView { row: at.row, col: at.col, kind: Some(kind) })
}

/// The first character of `s` as a text, if there is one.
pub open spec fn first_of(s: Seq<char>) -> Option<Seq<char>> {
    if s.len() > 0 {
        Some(seq![s[0]])
    } else {
        None
    }
}

/// The last character of `s` as a text, if there is one.
pub open spec fn last_of(s: Seq<char>) -> Option<Seq<char>> {
    if s.len() > 0 {
        Some(seq![s.last()])
    } else {
        None
    }
}

/// What a scan for a delimiter remembers from the characters it has passed.
pub struct Flags {
    /// The scan is inside a quoted text.
    pub quote: bool,
    /// The character before was a backslash that escapes the next one.
    pub backslash: bool,
}

/// The scan's memory after `c`; `None` where `c` is the delimiter, neither
/// quoted nor escaped, at which the scan stops.
pub open spec fn scan_step(flags: Flags, c: char, until: char) -> Option<Flags> {
    if !flags.quote && !flags.backslash && c == until {
        None
    } else if c == '"' && !flags.backslash {
        Some(Flags { quote: !flags.quote, backslash: false })
    } else if c == '\\' && !flags.backslash {
        Some(Flags { quote: flags.quote, backslash: true })
    } else {
        Some(Flags { quote: flags.quote, backslash: false })
    }
}

/// The index at which a scan that stands at `i` with memory `flags` stops.
pub open spec fn find_from(s: Seq<char>, i: int, flags: Flags, until: char) -> Option<int>
    decreases s.len() - i,
{
    if i < 0 || i >= s.len() {
        None
    } else {
        match scan_step(flags, s[i], until) {
            None => Some(i),
            Some(next) => find_from(s, i + 1, next, until),
        }
    }
}

/// The index of the first occurrence of `until` in `s` that is neither
/// inside a quoted text nor escaped by a backslash.
pub open spec fn find(s: Seq<char>, until: char) -> Option<int> {
    find_from(s, 0, Flags { quote: false, backslash: false }, until)
}

/// The error of a scan that reached the end of `s` without the delimiter:
/// it is detected after the last character.
pub open spec fn missing(at: Position, s: Seq<char>, until: char) -> ParseError {
    syntax(at.advance(s), Some(seq![until]), last_of(s))
}

/// The error of a text `s` that does not begin with `literal`.
pub open spec fn mismatch(at: Position, s: Seq<char>, literal: Seq<char>) -> ParseError {
    syntax(at, Some(literal), first_of(s))
}

/// `s` with every occurrence of the pair `first`, `second` replaced by
/// `with`, the occurrences taken from the left and not overlapping.
pub open spec fn replace_pair(s: Seq<char>, first: char, second: char, with: char) -> Seq<char>
    decreases s.len(),
{
    if s.len() == 0 {
        s
    } else if s.len() >= 2 && s[0] == first && s[1] == second {
        seq![with] + replace_pair(s.skip(2), first, second, with)
    } else {
        seq![s[0]] + replace_pair(s.skip(1), first, second, with)
    }
}

/// The text that the inside of a quoted text stands for: first every `\"`
/// becomes `"`, then every `\\` becomes `\`.
pub open spec fn unescape(s: Seq<char>) -> Seq<char> {
    replace_pair(replace_pair(s, '\\', '"', '"'), '\\', '\\', '\\')
}

/// Whether `s` begins with the characters of `literal`.
pub open spec fn begins_with(s: Seq<char>, literal: Seq<char>) -> bool {
    literal.len() <= s.len() && s.take(literal.len() as int) == literal
}

/// A text begins with a one-character literal where that character is its
/// first.
pub proof fn lemma_begins_with_one(s: Seq<char>, c: char)
    ensures
        begins_with(s, seq![c]) <==> s.len() > 0 && s[0] == c,
{
    if s.len() > 0 {
        assert(s.take(1) =~= seq![s[0]]);
        assert(seq![s[0]][0] == s[0]);
        assert(seq![c][0] == c);
    }
}

/// Walking two texts one after the other is walking them joined.
pub proof fn lemma_advance_concat(at: Position, a: Seq<char>, b: Seq<char>)
    ensures
        at.advance(a + b) == at.advance(a).advance(b),
    decreases b.len(),
{
    if b.len() == 0 {
        assert(a + b =~= a);
    } else {
        assert((a + b).drop_last() =~= a + b.drop_last());
        lemma_advance_concat(at, a, b.drop_last());
    }
}

/// Walking a text in two parts, split at `k`, is walking the whole.
pub proof fn lemma_advance_split(at: Position, s: Seq<char>, k: int)
    requires
        0 <= k <= s.len(),
    ensures
        at.advance(s) == at.advance(s.take(k)).advance(s.skip(k)),
{
    assert(s =~= s.take(k) + s.skip(k));
    lemma_advance_concat(at, s.take(k), s.skip(k));
}

/// A walk moves neither count further than the text is long.
pub proof fn lemma_advance_bound(at: Position, s: Seq<char>)
    ensures
        at.row <= at.advance(s).row <= at.row + s.len(),
        at.advance(s).col <= at.col + s.len(),
    decreases s.len(),
{
    if s.len() > 0 {
        lemma_advance_bound(at, s.drop_last());
    }
}

/// A walk over one character is one step.
pub proof fn lemma_advance_one(at: Position, c: char)
    ensures
        at.advance(seq![c]) == at.step(c),
{
    reveal_with_fuel(Position::advance, 2);
    assert(seq![c].drop_last() =~= Seq::<char>::empty());
    assert(seq![c].last() == c);
}

/// A scan that stops does so inside the text, at the delimiter.
pub proof fn lemma_find_from_bounds(s: Seq<char>, i: int, flags: Flags, until: char)
    requires
        0 <= i,
    ensures
        match find_from(s, i, flags, until) {
            Some(k) => i <= k < s.len() && s[k] == until,
            None => true,
        },
    decreases s.len() - i,
{
    if i < s.len() {
        match scan_step(flags, s[i], until) {
            None => {},
            Some(next) => lemma_find_from_bounds(s, i + 1, next, until),
        }
    }
}

/// Where a scan stops in a text, it stops in every text that begins with
/// the characters up to and including that place.
pub proof fn lemma_find_from_prefix(
    a: Seq<char>,
    b: Seq<char>,
    i: int,
    flags: Flags,
    until: char,
)
    requires
        0 <= i,
        find_from(a, i, flags, until) is Some,
        a.len() <= b.len(),
        forall|j: int| 0 <= j < a.len() ==> a[j] == b[j],
    ensures
        find_from(b, i, flags, until) == find_from(a, i, flags, until),
    decreases a.len() - i,
{
    if i < a.len() {
        match scan_step(flags, a[i], until) {
            None => {},
            Some(next) => lemma_find_from_prefix(a, b, i + 1, next, until),
        }
    }
}

/// What reading a text came to: the position reached, and the value or the
/// error.
pub struct Outcome {
    pub after: Position,
    pub result: Result<Value, ParseError>,
}

/// The outcome of an error `e` with the cursor left at `after`.
pub open spec fn failed(after: Position, e: ParseError) -> Outcome {
    Outcome { after, result: Err(e) }
}

/// Reads a word: `input` holds exactly `word` between optional whitespace.
/// The error names the trimmed text and what was `expected`.
pub open spec fn decode_word(
    at: Position,
    input: Seq<char>,
    word: Seq<char>,
    expected: Seq<char>,
    value: Value,
) -> Outcome {
    let n = leading_spaces(input) as int;
    let start = at.advance(input.take(n));
    let text = trim_end(input.skip(n));
    if text == word {
        Outcome { after: at.advance(input), result: Ok(value) }
    } else {
        failed(start, syntax(start, Some(expected), Some(text)))
    }
}

/// Reads `null`.
pub open spec fn decode_unit(at: Position, input: Seq<char>) -> Outcome {
    decode_word(at, input, "null"@, "null"@, Value::Unit)
}

/// Reads `true` or `false`.
pub open spec fn decode_bool(at: Position, input: Seq<char>) -> Outcome {
    let text = trim_end(input.skip(leading_spaces(input) as int));
    if text == "false"@ {
        decode_word(at, input, "false"@, "bool"@, Value::Bool(false))
    } else {
        decode_word(at, input, "true"@, "bool"@, Value::Bool(true))
    }
}

/// Whether the type named `kind` has no negative values.
pub open spec fn names_unsigned(kind: Seq<char>) -> bool {
    kind.len() > 0 && kind[0] == 'u'
}

/// Whether the type named `kind` is a floating-point type.
pub open spec fn names_float(kind: Seq<char>) -> bool {
    kind.len() > 0 && kind[0] == 'f'
}

/// Walks the text of a malformed number from index `i` to the character
/// that makes it so. Digits, a `-` in front unless the type is unsigned,
/// and for a floating-point type one `.` are passed, a column each. The
/// first other character is the unexpected one; of an integer, whitespace
/// is reported by that word, a line feed from the start of the next row.
/// Where every character is passed, the number itself is missing.
pub open spec fn rescan_from(
    at: Position,
    s: Seq<char>,
    i: int,
    dot: bool,
    kind: Seq<char>,
) -> Outcome
    decreases s.len() - i,
{
    if i < 0 || i >= s.len() {
        failed(at, syntax(at, Some(kind), None))
    } else {
        let c = s[i];
        if digit(c) {
            rescan_from(at.right(), s, i + 1, dot, kind)
        } else if c == '-' && i == 0 && !names_unsigned(kind) {
            rescan_from(at.right(), s, i + 1, dot, kind)
        } else if c == '.' && !dot && names_float(kind) {
            rescan_from(at.right(), s, i + 1, true, kind)
        } else if whitespace(c) && !names_float(kind) {
            let seen = if c == '\n' {
                at.below()
            } else {
                at
            };
            failed(seen, syntax(seen, None, Some("whitespace"@)))
        } else {
            failed(at, syntax(at, None, Some(seq![c])))
        }
    }
}

/// The walk over a malformed number ends in a syntax error, whatever the
/// text.
pub proof fn lemma_rescan_syntax(at: Position, s: Seq<char>, i: int, dot: bool, kind: Seq<char>)
    ensures
        rescan_from(at, s, i, dot, kind).result matches Err(ParseError::Syntax(_)),
    decreases s.len() - i,
{
    if 0 <= i < s.len() {
        lemma_rescan_syntax(at.right(), s, i + 1, dot, kind);
        lemma_rescan_syntax(at.right(), s, i + 1, true, kind);
    }
}

/// The error of the malformed number `s` that starts at `at`.
pub open spec fn rescan(at: Position, s: Seq<char>, kind: Seq<char>) -> Outcome {
    rescan_from(at, s, 0, false, kind)
}

/// Whether `text` begins with a zero that further digits follow.
pub open spec fn leading_zero(text: Seq<char>) -> bool {
    text.len() > 1 && text[0] == '0' && digit(text[1])
}

/// The error of the text `text` at `at`, which denotes no number of the
/// type named `kind` for the reason `why`.
pub open spec fn malformed(
    at: Position,
    text: Seq<char>,
    kind: Seq<char>,
    why: Malformed,
) -> Outcome {
    match why {
        Malformed::Empty => failed(at, syntax(at, Some(kind), None)),
        Malformed::InvalidDigit => rescan(at, text, kind),
        _ => failed(at, overflow(at, kind)),
    }
}

/// Reads an integer of the type `kind`.
pub open spec fn decode_integer(at: Position, input: Seq<char>, kind: Integer) -> Outcome {
    let n = leading_spaces(input) as int;
    let start = at.advance(input.take(n));
    let text = trim_end(input.skip(n));
    if leading_zero(text) {
        failed(start, syntax(start, Some("1-9"@), Some("0"@)))
    } else {
        match parse(text, kind.min(), kind.max()) {
            Ok(i) => Outcome { after: at.advance(input), result: Ok(Value::Int(i)) },
            Err(why) => malformed(start, text, kind.name(), why),
        }
    }
}

/// What stands between the quotes of `text`, which starts at `at`: the
/// text must begin with `"`, and the scan for the closing quote starts
/// behind it.
pub open spec fn quoted(at: Position, text: Seq<char>) -> Result<Seq<char>, Outcome> {
    if text.len() == 0 || text[0] != '"' {
        Err(failed(at, mismatch(at, text, seq!['"'])))
    } else {
        let inner = text.skip(1);
        match find(inner, '"') {
            None => Err(failed(at.advance(inner), missing(at, inner, '"'))),
            Some(k) => Ok(inner.take(k)),
        }
    }
}

/// After a value, only whitespace may follow: the position after it, and
/// the error where another character stands there.
pub open spec fn finish(at: Position, tail: Seq<char>, value: Value) -> Outcome {
    let n = leading_spaces(tail) as int;
    let end = at.advance(tail.take(n));
    if n < tail.len() {
        failed(end, syntax(end, None, Some(seq![tail[n]])))
    } else {
        Outcome { after: end, result: Ok(value) }
    }
}

/// Reads a quoted text; with `single`, a text of exactly one character.
pub open spec fn decode_text(at: Position, input: Seq<char>, single: bool) -> Outcome {
    let n = leading_spaces(input) as int;
    let start = at.advance(input.take(n));
    let rest = input.skip(n);
    match quoted(start, trim_end(rest)) {
        Err(outcome) => outcome,
        Ok(inner) => {
            let text = unescape(inner);
            if single && text.len() > 1 {
                failed(start, overflow(start, "char"@))
            } else if single && text.len() == 0 {
                failed(start, syntax(start.right(), None, Some(seq!['"'])))
            } else {
                let value = if single {
                    Value::Char(text[0])
                } else {
                    Value::Text(text)
                };
                let used = inner.len() as int + 2;
                finish(start.advance(rest.take(used)), rest.skip(used), value)
            }
        },
    }
}

/// Reads a value of the given shape from `input`, whose first character
/// stands at `at`.
pub open spec fn decode(at: Position, shape: Shape, input: Seq<char>) -> Outcome
    decreases shape, 1nat, 0nat,
{
    match shape {
        Shape::Unit => decode_unit(at, input),
        Shape::Bool => decode_bool(at, input),
        Shape::Int(kind) => decode_integer(at, input, kind),
        Shape::Char => decode_text(at, input, true),
        Shape::Text => decode_text(at, input, false),
        Shape::Tuple(shapes) => {
            let n = leading_spaces(input) as int;
            let start = at.advance(input.take(n));
            let rest = input.skip(n);
            if rest.len() == 0 || rest[0] != '[' {
                failed(start, mismatch(start, rest, seq!['[']))
            } else {
                decode_elements(start.right(), shapes, 0, rest.skip(1), Seq::empty())
            }
        },
    }
}

/// The delimiter that closes element `i` of a tuple with `arity` elements.
pub open spec fn closing(i: int, arity: int) -> char {
    if i + 1 < arity {
        ','
    } else {
        ']'
    }
}

/// Reads the elements of a tuple from element `i` on, `rest` being the
/// text behind the opening bracket or the last comma, and `values` the
/// elements read so far. Each element is the text up to its delimiter and
/// is read as a value of its own shape; behind the closing bracket only
/// whitespace may follow.
pub open spec fn decode_elements(
    at: Position,
    shapes: Seq<Shape>,
    i: int,
    rest: Seq<char>,
    values: Seq<Value>,
) -> Outcome
    decreases shapes, 0nat, shapes.len() - i,
{
    if i < 0 || i >= shapes.len() {
        finish(at, rest, Value::Tuple(values))
    } else {
        let until = closing(i, shapes.len() as int);
        match find(rest, until) {
            None => failed(at.advance(rest), missing(at, rest, until)),
            Some(k) => {
                let element = decode(at, shapes[i], rest.take(k));
                match element.result {
                    Err(e) => failed(element.after, e),
                    Ok(v) => decode_elements(
                        element.after.right(),
                        shapes,
                        i + 1,
                        rest.skip(k + 1),
                        values.push(v),
                    ),
                }
            },
        }
    }
}

/// A value that was read took the whole text: the cursor stands behind
/// the last character.
pub proof fn lemma_decode_consumes(at: Position, shape: Shape, input: Seq<char>)
    ensures
        decode(at, shape, input).result is Ok ==> decode(at, shape, input).after == at.advance(
            input,
        ),
    decreases shape, 1nat, 0nat,
{
    match shape {
        Shape::Unit => {

        },
        Shape::Bool => {

        },
        Shape::Int(kind) => {
            let n = leading_spaces(input) as int;
            lemma_rescan_syntax(
                at.advance(input.take(n)),
                trim_end(input.skip(n)),
                0,
                false,
                kind.name(),
            );
        },
        Shape::Char => {
            lemma_text_consumes(at, input, true);
        },
        Shape::Text => {
            lemma_text_consumes(at, input, false);
        },
        Shape::Tuple(shapes) => {
            let n = leading_spaces(input) as int;
            crate::text::lemma_spaces_bounds(input);
            let start = at.advance(input.take(n));
            let rest = input.skip(n);
            lemma_advance_split(at, input, n);
            if rest.len() > 0 && rest[0] == '[' {
                lemma_elements_consume(start.right(), shapes, 0, rest.skip(1), Seq::empty());
                lemma_advance_split(start, rest, 1);
                assert(rest.take(1) =~= seq!['[']);
                lemma_advance_one(start, '[');
            }
        },
    }
}

/// As `lemma_decode_consumes`, for a quoted text.
pub proof fn lemma_text_consumes(at: Position, input: Seq<char>, single: bool)
    ensures
        decode_text(at, input, single).result is Ok ==> decode_text(at, input, single).after
            == at.advance(input),
{
    let n = leading_spaces(input) as int;
    crate::text::lemma_spaces_bounds(input);
    let start = at.advance(input.take(n));
    let rest = input.skip(n);
    lemma_advance_split(at, input, n);
    if decode_text(at, input, single).result is Ok {
        let inner = quoted(start, trim_end(rest))->Ok_0;
        let used = inner.len() as int + 2;
        crate::text::lemma_spaces_bounds(rest);
        lemma_find_from_bounds(
            trim_end(rest).skip(1),
            0,
            Flags { quote: false, backslash: false },
            '"',
        );
        let tail = rest.skip(used);
        crate::text::lemma_spaces_bounds(tail);
        assert(tail.take(tail.len() as int) =~= tail);
        lemma_advance_split(start, rest, used);
    }
}

/// As `lemma_decode_consumes`, for the elements of a tuple.
pub proof fn lemma_elements_consume(
    at: Position,
    shapes: Seq<Shape>,
    i: int,
    rest: Seq<char>,
    values: Seq<Value>,
)
    ensures
        decode_elements(at, shapes, i, rest, values).result is Ok ==> decode_elements(
            at,
            shapes,
            i,
            rest,
            values,
        ).after == at.advance(rest),
    decreases shapes, 0nat, shapes.len() - i,
{
    if i < 0 || i >= shapes.len() {
        crate::text::lemma_spaces_bounds(rest);
        assert(rest.take(rest.len() as int) =~= rest);
    } else {
        let until = closing(i, shapes.len() as int);
        match find(rest, until) {
            None => {},
            Some(k) => {
                lemma_find_from_bounds(rest, 0, Flags { quote: false, backslash: false }, until);
                let element = decode(at, shapes[i], rest.take(k));
                lemma_decode_consumes(at, shapes[i], rest.take(k));
                match element.result {
                    Err(e) => {},
                    Ok(v) => {
                        lemma_elements_consume(
                            element.after.right(),
                            shapes,
                            i + 1,
                            rest.skip(k + 1),
                            values.push(v),
                        );
                        lemma_advance_split(at, rest, k + 1);
                        lemma_advance_split(at, rest.take(k + 1), k);
                        assert(rest.take(k + 1).take(k) =~= rest.take(k));
                        assert(rest.take(k + 1).skip(k) =~= seq![until]);
                        lemma_advance_one(element.after, until);
                    },
                }
            },
        }
    }
}

} // verus!
