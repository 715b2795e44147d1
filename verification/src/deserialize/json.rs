//! The JSON-like deserializer: a recursive-descent reader that tracks the
//! row and column of the first character it has not yet consumed.

use crate::decimal::{parse_decimal, Malformed, Number};
use crate::deserialize::grammar::{
    begins_with, decode, decode_elements, decode_integer, decode_text, decode_word, find,
    find_from, finish, lemma_advance_bound, lemma_advance_one, lemma_advance_split,
    lemma_begins_with_one, lemma_decode_consumes, lemma_find_from_bounds,
    lemma_find_from_prefix, malformed, mismatch, missing, quoted, replace_pair, rescan,
    rescan_from, unescape, Flags, Outcome, Position,
};
use crate::deserialize::{Decoding, Deserialize, Deserializer};
use crate::error::{Error, Overflow, ParseError, Syntax};
use crate::text::{
    char_text, count_leading_spaces, is_digit, is_whitespace, leading_spaces,
    lemma_spaces_bounds, lemma_trim_rest, spells, to_chars, to_text, trim_end, trim_text,
};
use crate::value::{Integer, Shape, Shaped, Value};
use core::marker::PhantomData;
use vstd::prelude::*;

verus! {

/// Json deserializer which converts JSON strings into deserialize items.
#[derive(Debug, Eq, Ord, PartialEq, PartialOrd)]
pub struct Json<'a> {
    /// The current column number.
    col: usize,
    /// The current row number.
    row: usize,
    /// Holds the lifetime of the input text.
    phantom: PhantomData<&'a ()>,
}

impl<'a> View for Json<'a> {
    type V = Position;

    closed spec fn view(&self) -> Position {
        Position { row: self.row as nat, col: self.col as nat }
    }
}

impl<'a> Clone for Json<'a> {
    /// A deserializer with the cursor at the same place.
    fn clone(&self) -> (json: Self)
        ensures
            json@ == self@,
    {
        Self { col: self.col, row: self.row, phantom: PhantomData }
    }
}

/// Whether the error `e`, with the cursor left at `after`, is what
/// `outcome` says.
pub open spec fn reports(outcome: Outcome, after: Position, e: Error) -> bool {
    &&& outcome.after == after
    &&& outcome.result matches Err(f) && e@ == f.error()
}

/// Whether the result `r`, with the cursor left at `after`, is what
/// `outcome` says: the value read, or the error put into words.
pub open spec fn yields<T: Shaped>(outcome: Outcome, after: Position, r: Result<T, Error>) -> bool {
    &&& outcome.after == after
    &&& match r {
        Ok(v) => outcome.result == Ok::<Value, ParseError>(v.value()),
        Err(e) => outcome.result matches Err(f) && e@ == f.error(),
    }
}

/// `v` with every occurrence of the pair `first`, `second` replaced by
/// `with`.
fn replace(v: &Vec<char>, first: char, second: char, with: char) -> (r: Vec<char>)
    ensures
        r@ == replace_pair(v@, first, second, with),
{
    let mut r: Vec<char> = Vec::new();
    let mut i: usize = 0;
    assert(v@.skip(0) =~= v@);
    while i < v.len()
        invariant
            i <= v.len(),
            r@ + replace_pair(v@.skip(i as int), first, second, with) == replace_pair(
                v@,
                first,
                second,
                with,
            ),
        decreases v.len() - i,
    {
        let ghost rest = v@.skip(i as int);
        if i + 1 < v.len() && v[i] == first && v[i + 1] == second {
            r.push(with);
            proof {
                assert(rest.skip(2) =~= v@.skip(i + 2));
                assert(r@ + replace_pair(v@.skip(i + 2), first, second, with) =~= r@.drop_last()
                    + replace_pair(rest, first, second, with));
            }
            i += 2;
        } else {
            r.push(v[i]);
            proof {
                assert(rest.skip(1) =~= v@.skip(i + 1));
                assert(r@ + replace_pair(v@.skip(i + 1), first, second, with) =~= r@.drop_last()
                    + replace_pair(rest, first, second, with));
            }
            i += 1;
        }
    }
    assert(r@ + replace_pair(v@.skip(i as int), first, second, with) =~= r@);
    r
}

impl<'a> Json<'a> {
    /// Create a new Json deserializer, with the cursor on the first
    /// character of the first row.
    #[must_use]
    pub fn new() -> (json: Self)
        ensures
            json@ == (Position { row: 1, col: 1 }),
    {
        Self { col: 1, row: 1, phantom: PhantomData }
    }

    /// The row of the cursor.
    pub fn row(&self) -> (row: usize)
        ensures
            row == self@.row,
    {
        self.row
    }

    /// The column of the cursor.
    pub fn col(&self) -> (col: usize)
        ensures
            col == self@.col,
    {
        self.col
    }

    /// Moves the cursor over `v[from..to]`.
    fn walk(&mut self, v: &Vec<char>, from: usize, to: usize)
        requires
            from <= to <= v.len(),
            old(self)@.fits((to - from) as nat),
        ensures
            final(self)@ == old(self)@.advance(v@.subrange(from as int, to as int)),
    {
        let ghost text = v@.subrange(from as int, to as int);
        let mut i: usize = from;
        assert(text.take(0) =~= Seq::<char>::empty());
        while i < to
            invariant
                from <= i <= to <= v.len(),
                text == v@.subrange(from as int, to as int),
                self@ == old(self)@.advance(text.take(i - from)),
                self.row <= old(self).row + (i - from),
                self.col <= old(self).col + (i - from),
                old(self)@.fits((to - from) as nat),
            decreases to - i,
        {
            proof {
                assert(text.take(i - from + 1).drop_last() =~= text.take(i - from));
                assert(text.take(i - from + 1).last() == v@[i as int]);
            }
            if v[i] == '\n' {
                self.row = self.row + 1;
                self.col = 1;
            } else {
                self.col = self.col + 1;
            }
            i += 1;
        }
        assert(text.take(to - from) =~= text);
    }

    /// Consume all the remaining tokens: the cursor moves to the end of
    /// `input`.
    pub fn consume_all(&mut self, input: &'a str) -> (taken: (&'a str, &'a str))
        requires
            old(self)@.fits(input@.len()),
        ensures
            final(self)@ == old(self)@.advance(input@),
            taken.0@ == input@,
            taken.1@ == Seq::<char>::empty(),
    {
        let v = to_chars(input);
        self.walk(&v, 0, v.len());
        assert(v@.subrange(0, v.len() as int) =~= v@);
        proof {
            reveal_strlit("");
        }
        let nothing: &'a str = "";
        assert(nothing@ =~= Seq::<char>::empty());
        (input, nothing)
    }

    /// Consume whitespace in the input string: the cursor moves over the
    /// whitespace that `input` begins with, which is split off.
    pub fn consume_whitespace(&mut self, input: &'a str) -> (taken: (&'a str, &'a str))
        requires
            old(self)@.fits(input@.len()),
        ensures
            final(self)@ == old(self)@.advance(input@.take(leading_spaces(input@) as int)),
            taken.0@ == input@.take(leading_spaces(input@) as int),
            taken.1@ == input@.skip(leading_spaces(input@) as int),
            final(self)@.fits(taken.1@.len()),
    {
        let v = to_chars(input);
        let n = count_leading_spaces(&v);
        self.walk(&v, 0, n);
        proof {
            assert(v@.subrange(0, n as int) =~= input@.take(n as int));
            assert(v@.subrange(n as int, v.len() as int) =~= input@.skip(n as int));
            lemma_advance_bound(old(self)@, input@.take(n as int));
        }
        (input.substring_char(0, n), input.substring_char(n, v.len()))
    }

    /// Take an expected string: `input` without `expected` in front, or the
    /// error that names what stands there instead.
    pub fn take_expected(&self, input: &'a str, expected: &'a str) -> (r: Result<
        (&'a str, &'a str),
        Error,
    >)
        ensures
            match r {
                Ok(taken) => {
                    &&& begins_with(input@, expected@)
                    &&& taken.0@ == expected@
                    &&& taken.1@ == input@.skip(expected@.len() as int)
                },
                Err(e) => {
                    &&& !begins_with(input@, expected@)
                    &&& e@ == mismatch(self@, input@, expected@).error()
                },
            },
    {
        let v = to_chars(input);
        let w = to_chars(expected);
        let mut same: bool = w.len() <= v.len();
        let mut i: usize = 0;
        while same && i < w.len()
            invariant
                i <= w.len(),
                same ==> w.len() <= v.len(),
                same ==> forall|j: int| 0 <= j < i ==> v[j] == w[j],
                !same ==> !begins_with(v@, w@),
            decreases w.len() - i + (if same { 1nat } else { 0nat }),
        {
            if v[i] != w[i] {
                same = false;
                proof {
                    if w.len() <= v.len() {
                        assert(v@.take(w.len() as int)[i as int] == v[i as int]);
                    }
                }
            } else {
                i += 1;
            }
        }
        if same {
            assert(v@.take(w.len() as int) =~= w@);
            assert(v@.subrange(w.len() as int, v.len() as int) =~= v@.skip(w.len() as int));
            Ok((expected, input.substring_char(w.len(), v.len())))
        } else if v.len() > 0 {
            let found = char_text(v[0]);
            Err(
                Error::from(
                    Syntax::new(self.row, self.col).unexpected(found.as_str()).expected(expected),
                ),
            )
        } else {
            Err(Error::from(Syntax::new(self.row, self.col).expected(expected)))
        }
    }

    /// Consume the expected value: as `take_expected`, and the cursor moves
    /// over what was taken.
    pub fn consume_expected(&mut self, input: &'a str, expected: &'a str) -> (r: Result<
        (&'a str, &'a str),
        Error,
    >)
        requires
            old(self)@.fits(input@.len()),
        ensures
            match r {
                Ok(taken) => {
                    &&& begins_with(input@, expected@)
                    &&& taken.0@ == expected@
                    &&& taken.1@ == input@.skip(expected@.len() as int)
                    &&& final(self)@ == old(self)@.advance(expected@)
                    &&& final(self)@.fits(taken.1@.len())
                },
                Err(e) => {
                    &&& !begins_with(input@, expected@)
                    &&& e@ == mismatch(old(self)@, input@, expected@).error()
                    &&& final(self)@ == old(self)@
                },
            },
    {
        match self.take_expected(input, expected) {
            Ok(taken) => {
                self.consume_all(taken.0);
                proof {
                    lemma_advance_bound(old(self)@, expected@);
                }
                Ok(taken)
            },
            Err(e) => Err(e),
        }
    }

    /// Take from the input until the delimiter is reached, considering
    /// delimiters included within quotes: `input` is split in front of the
    /// first occurrence of `until` that is neither quoted nor escaped.
    /// Without one, the cursor moves to the end of `input`, where the
    /// delimiter is missed.
    pub fn take_until(&mut self, input: &'a str, until: char) -> (r: Result<
        (&'a str, &'a str),
        Error,
    >)
        requires
            old(self)@.fits(input@.len()),
        ensures
            match find(input@, until) {
                Some(k) => {
                    &&& r matches Ok(taken)
                    &&& 0 <= k < input@.len()
                    &&& taken.0@ == input@.take(k)
                    &&& taken.1@ == input@.skip(k)
                    &&& final(self)@ == old(self)@
                },
                None => {
                    &&& r matches Err(e)
                    &&& e@ == missing(old(self)@, input@, until).error()
                    &&& final(self)@ == old(self)@.advance(input@)
                },
            },
    {
        let v = to_chars(input);
        let mut quote: bool = false;
        let mut backslash: bool = false;
        let mut i: usize = 0;
        while i < v.len()
            invariant
                i <= v.len(),
                v@ == input@,
                find(v@, until) == find_from(v@, i as int, Flags { quote, backslash }, until),
            decreases v.len() - i,
        {
            let c = v[i];
            if !(quote || backslash) && c == until {
                proof {
                    assert(v@.subrange(0, i as int) =~= input@.take(i as int));
                    assert(v@.subrange(i as int, v.len() as int) =~= input@.skip(i as int));
                }
                return Ok((input.substring_char(0, i), input.substring_char(i, v.len())));
            }
            if c == '"' && !backslash {
                quote = !quote;
            } else if c == '\\' && !backslash {
                backslash = true;
                i += 1;
                continue ;
            }
            backslash = false;
            i += 1;
        }
        self.consume_all(input);
        let expected = char_text(until);
        if v.len() > 0 {
            let found = char_text(v[v.len() - 1]);
            Err(
                Error::from(
                    Syntax::new(self.row, self.col).unexpected(found.as_str()).expected(
                        expected.as_str(),
                    ),
                ),
            )
        } else {
            Err(Error::from(Syntax::new(self.row, self.col).expected(expected.as_str())))
        }
    }

    /// Consume from the input until the delimiter is reached, considering
    /// delimiters included within quotes: as `take_until`, and the cursor
    /// moves over what stands in front of the delimiter.
    pub fn consume_until(&mut self, input: &'a str, until: char) -> (r: Result<
        (&'a str, &'a str),
        Error,
    >)
        requires
            old(self)@.fits(input@.len()),
        ensures
            match find(input@, until) {
                Some(k) => {
                    &&& r matches Ok(taken)
                    &&& 0 <= k < input@.len()
                    &&& taken.0@ == input@.take(k)
                    &&& taken.1@ == input@.skip(k)
                    &&& final(self)@ == old(self)@.advance(input@.take(k))
                    &&& final(self)@.fits(taken.1@.len())
                },
                None => {
                    &&& r matches Err(e)
                    &&& e@ == missing(old(self)@, input@, until).error()
                    &&& final(self)@ == old(self)@.advance(input@)
                },
            },
    {
        match self.take_until(input, until) {
            Ok(taken) => {
                self.consume_all(taken.0);
                proof {
                    lemma_advance_bound(old(self)@, taken.0@);
                }
                Ok(taken)
            },
            Err(e) => Err(e),
        }
    }

    /// Convert a float error into the library's error: the character that
    /// makes `input` no number of the floating-point type named `kind`.
    pub fn convert_float_error(&mut self, input: &str, kind: &str) -> (e: Error)
        requires
            old(self)@.fits(input@.len()),
        ensures
            reports(rescan(old(self)@, input@, kind@), final(self)@, e),
    {
        self.syntax_error_number(input, kind)
    }

    /// Convert an integer error into the library's error: for the text
    /// `input`, which denotes no number of the type named `kind` for the
    /// reason `err`.
    pub fn convert_int_error(&mut self, err: Malformed, input: &str, kind: &str) -> (e: Error)
        requires
            old(self)@.fits(input@.len()),
        ensures
            reports(malformed(old(self)@, input@, kind@, err), final(self)@, e),
    {
        match err {
            Malformed::Empty => Error::from(Syntax::new(self.row, self.col).expected(kind)),
            Malformed::InvalidDigit => self.syntax_error_number(input, kind),
            Malformed::PosOverflow | Malformed::NegOverflow => Error::from(
                Overflow::new(self.row, self.col).kind(kind),
            ),
        }
    }

    /// Decode a string, taking into consideration escaped characters:
    /// `input` begins with a quote, and what stands between it and the
    /// next quote that no backslash escapes is unescaped.
    pub fn decode_string(&mut self, input: &'a str) -> (r: Result<String, Error>)
        requires
            old(self)@.fits(input@.len()),
        ensures
            match quoted(old(self)@, input@) {
                Ok(inner) => r matches Ok(text) && text@ == unescape(inner) && final(self)@ == old(
                    self,
                )@,
                Err(outcome) => r matches Err(e) && reports(outcome, final(self)@, e),
            },
    {
        proof {
            reveal_strlit("\"");
            assert("\""@ =~= seq!['"']);
            lemma_begins_with_one(input@, '"');
            lemma_advance_bound(old(self)@, input@);
        }
        let stripped = self.take_expected(input, "\"")?.1;
        let inner = self.take_until(stripped, '"')?.0;
        let v = to_chars(inner);
        let quotes = replace(&v, '\\', '"', '"');
        let text = replace(&quotes, '\\', '\\', '\\');
        let r = to_text(&text, 0, text.len());
        assert(text@.subrange(0, text.len() as int) =~= text@);
        Ok(r)
    }

    /// Create a syntax error for numeric types: walks `input`, the text of
    /// a malformed number of the type named `kind`, to the character that
    /// makes it so, and reports that character where it stands.
    pub fn syntax_error_number(&mut self, input: &str, kind: &str) -> (e: Error)
        requires
            old(self)@.fits(input@.len()),
        ensures
            reports(rescan(old(self)@, input@, kind@), final(self)@, e),
    {
        let v = to_chars(input);
        let name = to_chars(kind);
        let unsigned: bool = name.len() > 0 && name[0] == 'u';
        let float: bool = name.len() > 0 && name[0] == 'f';
        let mut dot: bool = false;
        let mut i: usize = 0;
        while i < v.len()
            invariant
                i <= v.len(),
                v@ == input@,
                name@ == kind@,
                unsigned == (name.len() > 0 && name[0] == 'u'),
                float == (name.len() > 0 && name[0] == 'f'),
                self.row == old(self).row,
                self.col == old(self).col + i,
                old(self)@.fits(input@.len()),
                rescan(old(self)@, v@, kind@) == rescan_from(self@, v@, i as int, dot, kind@),
            decreases v.len() - i,
        {
            let c = v[i];
            if is_digit(c) {
                self.col = self.col + 1;
            } else if c == '-' && i == 0 && !unsigned {
                self.col = self.col + 1;
            } else if c == '.' && !dot && float {
                self.col = self.col + 1;
                dot = true;
            } else if is_whitespace(c) && !float {
                if c == '\n' {
                    self.row = self.row + 1;
                    self.col = 1;
                }
                return Error::from(Syntax::new(self.row, self.col).unexpected("whitespace"));
            } else {
                let found = char_text(c);
                return Error::from(Syntax::new(self.row, self.col).unexpected(found.as_str()));
            }
            i += 1;
        }
        Error::from(Syntax::new(self.row, self.col).expected(kind))
    }

    /// Reads a word that stands for `value`: `input` holds exactly `word`
    /// between optional whitespace.
    fn word(
        &mut self,
        input: &'a str,
        word: &str,
        expected: &str,
        Ghost(value): Ghost<Value>,
    ) -> (r: Result<(), Error>)
        requires
            old(self)@.fits(input@.len()),
        ensures
            ({
                let outcome = decode_word(old(self)@, input@, word@, expected@, value);
                &&& outcome.after == final(self)@
                &&& match r {
                    Ok(()) => outcome.result == Ok::<Value, ParseError>(value),
                    Err(e) => reports(outcome, final(self)@, e),
                }
            }),
    {
        let (_, rest) = self.consume_whitespace(input);
        let text = trim_text(rest);
        proof {
            lemma_trim_rest(input@);
            lemma_spaces_bounds(input@);
            lemma_advance_split(old(self)@, input@, leading_spaces(input@) as int);
        }
        let v = to_chars(text);
        if spells(&v, word) {
            self.consume_all(rest);
            Ok(())
        } else {
            Err(Error::from(Syntax::new(self.row, self.col).unexpected(text).expected(expected)))
        }
    }

    /// Reads an integer of the type `kind`, as a sign and a magnitude.
    fn integer(&mut self, input: &'a str, kind: Integer) -> (r: Result<Number, Error>)
        requires
            old(self)@.fits(input@.len()),
        ensures
            ({
                let outcome = decode_integer(old(self)@, input@, kind);
                &&& outcome.after == final(self)@
                &&& match r {
                    Ok(n) => {
                        &&& outcome.result == Ok::<Value, ParseError>(Value::Int(n.value()))
                        &&& kind.min() <= n.value() <= kind.max()
                    },
                    Err(e) => reports(outcome, final(self)@, e),
                }
            }),
    {
        let (_, rest) = self.consume_whitespace(input);
        let text = trim_text(rest);
        proof {
            lemma_trim_rest(input@);
            lemma_spaces_bounds(input@);
            lemma_spaces_bounds(rest@);
            lemma_advance_split(old(self)@, input@, leading_spaces(input@) as int);
            reveal_strlit("0");
            reveal_strlit("1-9");
        }
        let v = to_chars(text);
        if v.len() > 1 && v[0] == '0' && is_digit(v[1]) {
            let zero = Syntax::new(self.row, self.col).unexpected("0").expected("1-9");
            return Err(Error::from(zero));
        }
        match parse_decimal(&v, kind.lowest(), kind.highest()) {
            Ok(n) => {
                self.consume_all(rest);
                Ok(n)
            },
            Err(why) => Err(self.convert_int_error(why, text, kind.label())),
        }
    }

    /// After a value only whitespace may follow: moves the cursor over it
    /// and reports the character that stands behind it, if there is one.
    fn end(&mut self, tail: &'a str, Ghost(value): Ghost<Value>) -> (r: Result<(), Error>)
        requires
            old(self)@.fits(tail@.len()),
        ensures
            ({
                let outcome = finish(old(self)@, tail@, value);
                &&& outcome.after == final(self)@
                &&& match r {
                    Ok(()) => outcome.result == Ok::<Value, ParseError>(value),
                    Err(e) => reports(outcome, final(self)@, e),
                }
            }),
    {
        let (_, rest) = self.consume_whitespace(tail);
        let v = to_chars(rest);
        if v.len() > 0 {
            proof {
                lemma_spaces_bounds(tail@);
            }
            let found = char_text(v[0]);
            Err(Error::from(Syntax::new(self.row, self.col).unexpected(found.as_str())))
        } else {
            Ok(())
        }
    }

    /// Reads a quoted text; with `single`, a text of exactly one character.
    fn text(&mut self, input: &'a str, single: bool) -> (r: Result<String, Error>)
        requires
            old(self)@.fits(input@.len()),
        ensures
            ({
                let outcome = decode_text(old(self)@, input@, single);
                &&& outcome.after == final(self)@
                &&& match r {
                    Ok(text) => {
                        &&& single ==> text@.len() == 1 && outcome.result == Ok::<
                            Value,
                            ParseError,
                        >(Value::Char(text@[0]))
                        &&& !single ==> outcome.result == Ok::<Value, ParseError>(
                            Value::Text(text@),
                        )
                    },
                    Err(e) => reports(outcome, final(self)@, e),
                }
            }),
    {
        let (_, rest) = self.consume_whitespace(input);
        let trimmed = trim_text(rest);
        let ghost start = self@;
        proof {
            lemma_trim_rest(input@);
            lemma_spaces_bounds(rest@);
            reveal_strlit("char");
            reveal_strlit("\"");
            assert("\""@ =~= seq!['"']);
        }
        let string = self.decode_string(trimmed)?;
        if single {
            let n = string.as_str().unicode_len();
            if n > 1 {
                return Err(Error::from(Overflow::new(self.row, self.col).kind("char")));
            } else if n == 0 {
                return Err(Error::from(Syntax::new(self.row, self.col + 1).unexpected("\"")));
            }
        }
        let ghost inner = quoted(start, trim_end(rest@))->Ok_0;
        let ghost k = inner.len() as int;
        proof {
            let none = Flags { quote: false, backslash: false };
            let short = trim_end(rest@).skip(1);
            lemma_find_from_bounds(short, 0, none, '"');
            lemma_find_from_prefix(short, rest@.skip(1), 0, none, '"');
            lemma_begins_with_one(rest@, '"');
            lemma_begins_with_one(rest@.skip(1).skip(k), '"');
            assert(rest@.skip(1).skip(k).skip(1) =~= rest@.skip(k + 2));
            lemma_advance_split(start, rest@.take(k + 2), 1);
            lemma_advance_split(start.advance(seq!['"']), rest@.take(k + 2).skip(1), k);
            assert(rest@.take(k + 2).take(1) =~= seq!['"']);
            assert(rest@.take(k + 2).skip(1).take(k) =~= rest@.skip(1).take(k));
            assert(rest@.take(k + 2).skip(1).skip(k) =~= seq!['"']);
        }
        let after_quote = self.consume_expected(rest, "\"")?.1;
        let closing = self.consume_until(after_quote, '"')?.1;
        let tail = self.consume_expected(closing, "\"")?.1;
        let ghost value = if single {
            Value::Char(string@[0])
        } else {
            Value::Text(string@)
        };
        assert(decode_text(old(self)@, input@, single) == finish(self@, tail@, value));
        self.end(tail, Ghost(value))?;
        Ok(string)
    }

    /// Reads the opening bracket of a tuple with the elements `shapes`.
    fn open(&mut self, input: &'a str, Ghost(shapes): Ghost<Seq<Shape>>) -> (r: Result<
        &'a str,
        Error,
    >)
        requires
            old(self)@.fits(input@.len()),
        ensures
            match r {
                Ok(rest) => {
                    &&& decode(old(self)@, Shape::Tuple(shapes), input@) == decode_elements(
                        final(self)@,
                        shapes,
                        0,
                        rest@,
                        Seq::empty(),
                    )
                    &&& final(self)@.fits(rest@.len())
                },
                Err(e) => reports(
                    decode(old(self)@, Shape::Tuple(shapes), input@),
                    final(self)@,
                    e,
                ),
            },
    {
        let (_, rest) = self.consume_whitespace(input);
        proof {
            reveal_strlit("[");
            assert("["@ =~= seq!['[']);
            lemma_begins_with_one(rest@, '[');
            lemma_advance_one(self@, '[');
        }
        Ok(self.consume_expected(rest, "[")?.1)
    }

    /// Reads one element of a tuple with the elements `shapes`, `values`
    /// being the elements read so far: the text up to the element's
    /// delimiter is read as a `T`, and the delimiter is consumed.
    fn element<T>(
        &mut self,
        rest: &'a str,
        last: bool,
        Ghost(shapes): Ghost<Seq<Shape>>,
        Ghost(values): Ghost<Seq<Value>>,
    ) -> (r: Result<(T, &'a str), Error>) where T: Deserialize<Self>
        requires
            old(self)@.fits(rest@.len()),
            values.len() < shapes.len(),
            shapes[values.len() as int] == T::shape(),
            last == (values.len() + 1 == shapes.len()),
        ensures
            match r {
                Ok(taken) => {
                    &&& decode_elements(old(self)@, shapes, values.len() as int, rest@, values)
                        == decode_elements(
                        final(self)@,
                        shapes,
                        values.len() as int + 1,
                        taken.1@,
                        values.push(taken.0.value()),
                    )
                    &&& final(self)@.fits(taken.1@.len())
                },
                Err(e) => reports(
                    decode_elements(old(self)@, shapes, values.len() as int, rest@, values),
                    final(self)@,
                    e,
                ),
            },
    {
        let until = if last {
            ']'
        } else {
            ','
        };
        let delimiter: &'a str = if last {
            "]"
        } else {
            ","
        };
        proof {
            reveal_strlit("]");
            reveal_strlit(",");
            assert("]"@ =~= seq![']']);
            assert(","@ =~= seq![',']);
            lemma_find_from_bounds(rest@, 0, Flags { quote: false, backslash: false }, until);
        }
        let (text, remainder) = self.take_until(rest, until)?;
        proof {
            lemma_decode_consumes(self@, T::shape(), text@);
            lemma_advance_bound(self@, text@);
            lemma_begins_with_one(remainder@, until);
        }
        let item = self.deserialize::<T>(&text)?;
        proof {
            lemma_advance_one(self@, until);
            assert(remainder@.skip(1) =~= rest@.skip(text@.len() as int + 1));
        }
        let (_, tail) = self.consume_expected(remainder, delimiter)?;
        Ok((item, tail))
    }

    /// Reads what follows the last element of a tuple.
    fn close(
        &mut self,
        rest: &'a str,
        Ghost(shapes): Ghost<Seq<Shape>>,
        Ghost(values): Ghost<Seq<Value>>,
    ) -> (r: Result<(), Error>)
        requires
            old(self)@.fits(rest@.len()),
            values.len() == shapes.len(),
        ensures
            ({
                let outcome = decode_elements(
                    old(self)@,
                    shapes,
                    values.len() as int,
                    rest@,
                    values,
                );
                &&& outcome.after == final(self)@
                &&& match r {
                    Ok(()) => outcome.result == Ok::<Value, ParseError>(Value::Tuple(values)),
                    Err(e) => reports(outcome, final(self)@, e),
                }
            }),
    {
        self.end(rest, Ghost(Value::Tuple(values)))
    }
}

impl<'a> Default for Json<'a> {
    /// Create a new default Json deserializer.
    fn default() -> (json: Self)
        ensures
            json@ == (Position { row: 1, col: 1 }),
    {
        Self::new()
    }
}

impl<'a> Decoding for Json<'a> {
    /// The input type for this Deserializer.
    type Input = &'a str;

    open spec fn admits(&self, input: &'a str) -> bool {
        self@.fits(input@.len())
    }

    open spec fn decoded(&self, shape: Shape, input: &'a str) -> Result<Value, ParseError> {
        decode(self@, shape, input@).result
    }

    open spec fn leaves(&self, shape: Shape, input: &'a str, after: Self) -> bool {
        after@ == decode(self@, shape, input@).after
    }
}

impl<'a> Deserializer for Json<'a> {
    /// Deserialize the input into the required output type.
    fn deserialize<T>(&mut self, input: &&'a str) -> (r: Result<T, Error>) where
        T: Deserialize<Self>,

        ensures
            yields(decode(old(self)@, T::shape(), input@), final(self)@, r),
    {
        T::accept(self, input)
    }

    /// Visit and deserialize a bool type.
    fn visit_bool(&mut self, input: &&'a str) -> (r: Result<bool, Error>)
        ensures
            yields(decode(old(self)@, Shape::Bool, input@), final(self)@, r),
    {
        let v = to_chars(trim_text(input));
        proof {
            lemma_trim_rest(input@);
        }
        if spells(&v, "false") {
            self.word(input, "false", "bool", Ghost(Value::Bool(false)))?;
            Ok(false)
        } else {
            self.word(input, "true", "bool", Ghost(Value::Bool(true)))?;
            Ok(true)
        }
    }

    /// Visit and deserialize a char type.
    fn visit_char(&mut self, input: &&'a str) -> (r: Result<char, Error>)
        ensures
            yields(decode(old(self)@, Shape::Char, input@), final(self)@, r),
    {
        let text = self.text(input, true)?;
        Ok(text.as_str().get_char(0))
    }

    /// Visit and deserialize an i8 type.
    fn visit_i8(&mut self, input: &&'a str) -> (r: Result<i8, Error>)
        ensures
            yields(decode(old(self)@, Shape::Int(Integer::I8), input@), final(self)@, r),
    {
        let n = self.integer(input, Integer::I8)?;
        Ok(n.signed() as i8)
    }

    /// Visit and deserialize an i16 type.
    fn visit_i16(&mut self, input: &&'a str) -> (r: Result<i16, Error>)
        ensures
            yields(decode(old(self)@, Shape::Int(Integer::I16), input@), final(self)@, r),
    {
        let n = self.integer(input, Integer::I16)?;
        Ok(n.signed() as i16)
    }

    /// Visit and deserialize an i32 type.
    fn visit_i32(&mut self, input: &&'a str) -> (r: Result<i32, Error>)
        ensures
            yields(decode(old(self)@, Shape::Int(Integer::I32), input@), final(self)@, r),
    {
        let n = self.integer(input, Integer::I32)?;
        Ok(n.signed() as i32)
    }

    /// Visit and deserialize an i64 type.
    fn visit_i64(&mut self, input: &&'a str) -> (r: Result<i64, Error>)
        ensures
            yields(decode(old(self)@, Shape::Int(Integer::I64), input@), final(self)@, r),
    {
        let n = self.integer(input, Integer::I64)?;
        Ok(n.signed() as i64)
    }

    /// Visit and deserialize an i128 type.
    fn visit_i128(&mut self, input: &&'a str) -> (r: Result<i128, Error>)
        ensures
            yields(decode(old(self)@, Shape::Int(Integer::I128), input@), final(self)@, r),
    {
        let n = self.integer(input, Integer::I128)?;
        Ok(n.signed())
    }

    /// Visit and deserialize an isize type.
    fn visit_isize(&mut self, input: &&'a str) -> (r: Result<isize, Error>)
        ensures
            yields(decode(old(self)@, Shape::Int(Integer::Isize), input@), final(self)@, r),
    {
        let n = self.integer(input, Integer::Isize)?;
        Ok(n.signed() as isize)
    }

    /// Visit and deserialize a String type.
    fn visit_string(&mut self, input: &&'a str) -> (r: Result<String, Error>)
        ensures
            yields(decode(old(self)@, Shape::Text, input@), final(self)@, r),
    {
        self.text(input, false)
    }

    /// Visit and deserialize a tuple type of size 1.
    fn visit_tuple_1<A>(&mut self, input: &&'a str) -> (r: Result<(A,), Error>) where
        A: Deserialize<Self>,

        ensures
            yields(decode(old(self)@, <(A,)>::shape(), input@), final(self)@, r),
    {
        let ghost shapes = seq![A::shape()];
        let ghost mut values = Seq::<Value>::empty();
        let rest = self.open(input, Ghost(shapes))?;
        let (a, rest) = self.element::<A>(rest, true, Ghost(shapes), Ghost(values))?;
        proof {
            values = values.push(a.value());
        }
        self.close(rest, Ghost(shapes), Ghost(values))?;
        Ok((a,))
    }

    /// Visit and deserialize a tuple type of size 2.
    fn visit_tuple_2<A, B>(&mut self, input: &&'a str) -> (r: Result<(A, B), Error>) where
        A: Deserialize<Self>,
        B: Deserialize<Self>,

        ensures
            yields(decode(old(self)@, <(A, B)>::shape(), input@), final(self)@, r),
    {
        let ghost shapes = seq![A::shape(), B::shape()];
        let ghost mut values = Seq::<Value>::empty();
        let rest = self.open(input, Ghost(shapes))?;
        let (a, rest) = self.element::<A>(rest, false, Ghost(shapes), Ghost(values))?;
        proof {
            values = values.push(a.value());
        }
        let (b, rest) = self.element::<B>(rest, true, Ghost(shapes), Ghost(values))?;
        proof {
            values = values.push(b.value());
        }
        assert(values =~= seq![a.value(), b.value()]);
        self.close(rest, Ghost(shapes), Ghost(values))?;
        Ok((a, b))
    }

    /// Visit and deserialize a tuple type of size 3.
    fn visit_tuple_3<A, B, C>(&mut self, input: &&'a str) -> (r: Result<(A, B, C), Error>) where
        A: Deserialize<Self>,
        B: Deserialize<Self>,
        C: Deserialize<Self>,

        ensures
            yields(decode(old(self)@, <(A, B, C)>::shape(), input@), final(self)@, r),
    {
        let ghost shapes = seq![A::shape(), B::shape(), C::shape()];
        let ghost mut values = Seq::<Value>::empty();
        let rest = self.open(input, Ghost(shapes))?;
        let (a, rest) = self.element::<A>(rest, false, Ghost(shapes), Ghost(values))?;
        proof {
            values = values.push(a.value());
        }
        let (b, rest) = self.element::<B>(rest, false, Ghost(shapes), Ghost(values))?;
        proof {
            values = values.push(b.value());
        }
        let (c, rest) = self.element::<C>(rest, true, Ghost(shapes), Ghost(values))?;
        proof {
            values = values.push(c.value());
        }
        assert(values =~= seq![a.value(), b.value(), c.value()]);
        self.close(rest, Ghost(shapes), Ghost(values))?;
        Ok((a, b, c))
    }

    /// Visit and deserialize a tuple type of size 4.
    fn visit_tuple_4<A, B, C, D>(
        &mut self,
        input: &&'a str,
    ) -> (r: Result<(A, B, C, D), Error>) where
        A: Deserialize<Self>,
        B: Deserialize<Self>,
        C: Deserialize<Self>,
        D: Deserialize<Self>,

        ensures
            yields(decode(old(self)@, <(A, B, C, D)>::shape(), input@), final(self)@, r),
    {
        let ghost shapes = seq![A::shape(), B::shape(), C::shape(), D::shape()];
        let ghost mut values = Seq::<Value>::empty();
        let rest = self.open(input, Ghost(shapes))?;
        let (a, rest) = self.element::<A>(rest, false, Ghost(shapes), Ghost(values))?;
        proof {
            values = values.push(a.value());
        }
        let (b, rest) = self.element::<B>(rest, false, Ghost(shapes), Ghost(values))?;
        proof {
            values = values.push(b.value());
        }
        let (c, rest) = self.element::<C>(rest, false, Ghost(shapes), Ghost(values))?;
        proof {
            values = values.push(c.value());
        }
        let (d, rest) = self.element::<D>(rest, true, Ghost(shapes), Ghost(values))?;
        proof {
            values = values.push(d.value());
        }
        assert(values =~= seq![a.value(), b.value(), c.value(), d.value()]);
        self.close(rest, Ghost(shapes), Ghost(values))?;
        Ok((a, b, c, d))
    }

    /// Visit and deserialize a tuple type of size 5.
    fn visit_tuple_5<A, B, C, D, E>(
        &mut self,
        input: &&'a str,
    ) -> (r: Result<(A, B, C, D, E), Error>) where
        A: Deserialize<Self>,
        B: Deserialize<Self>,
        C: Deserialize<Self>,
        D: Deserialize<Self>,
        E: Deserialize<Self>,

        ensures
            yields(decode(old(self)@, <(A, B, C, D, E)>::shape(), input@), final(self)@, r),
    {
        let ghost shapes = seq![A::shape(), B::shape(), C::shape(), D::shape(), E::shape()];
        let ghost mut values = Seq::<Value>::empty();
        let rest = self.open(input, Ghost(shapes))?;
        let (a, rest) = self.element::<A>(rest, false, Ghost(shapes), Ghost(values))?;
        proof {
            values = values.push(a.value());
        }
        let (b, rest) = self.element::<B>(rest, false, Ghost(shapes), Ghost(values))?;
        proof {
            values = values.push(b.value());
        }
        let (c, rest) = self.element::<C>(rest, false, Ghost(shapes), Ghost(values))?;
        proof {
            values = values.push(c.value());
        }
        let (d, rest) = self.element::<D>(rest, false, Ghost(shapes), Ghost(values))?;
        proof {
            values = values.push(d.value());
        }
        let (e, rest) = self.element::<E>(rest, true, Ghost(shapes), Ghost(values))?;
        proof {
            values = values.push(e.value());
        }
        assert(values =~= seq![a.value(), b.value(), c.value(), d.value(), e.value()]);
        self.close(rest, Ghost(shapes), Ghost(values))?;
        Ok((a, b, c, d, e))
    }

    /// Visit and deserialize a tuple type of size 6.
    fn visit_tuple_6<A, B, C, D, E, F>(
        &mut self,
        input: &&'a str,
    ) -> (r: Result<(A, B, C, D, E, F), Error>) where
        A: Deserialize<Self>,
        B: Deserialize<Self>,
        C: Deserialize<Self>,
        D: Deserialize<Self>,
        E: Deserialize<Self>,
        F: Deserialize<Self>,

        ensures
            yields(decode(old(self)@, <(A, B, C, D, E, F)>::shape(), input@), final(self)@, r),
    {
        let ghost shapes = seq![
            A::shape(),
            B::shape(),
            C::shape(),
            D::shape(),
            E::shape(),
            F::shape(),
        ];
        let ghost mut values = Seq::<Value>::empty();
        let rest = self.open(input, Ghost(shapes))?;
        let (a, rest) = self.element::<A>(rest, false, Ghost(shapes), Ghost(values))?;
        proof {
            values = values.push(a.value());
        }
        let (b, rest) = self.element::<B>(rest, false, Ghost(shapes), Ghost(values))?;
        proof {
            values = values.push(b.value());
        }
        let (c, rest) = self.element::<C>(rest, false, Ghost(shapes), Ghost(values))?;
        proof {
            values = values.push(c.value());
        }
        let (d, rest) = self.element::<D>(rest, false, Ghost(shapes), Ghost(values))?;
        proof {
            values = values.push(d.value());
        }
        let (e, rest) = self.element::<E>(rest, false, Ghost(shapes), Ghost(values))?;
        proof {
            values = values.push(e.value());
        }
        let (f, rest) = self.element::<F>(rest, true, Ghost(shapes), Ghost(values))?;
        proof {
            values = values.push(f.value());
        }
        assert(values =~= seq![a.value(), b.value(), c.value(), d.value(), e.value(), f.value()]);
        self.close(rest, Ghost(shapes), Ghost(values))?;
        Ok((a, b, c, d, e, f))
    }

    /// Visit and deserialize a tuple type of size 7.
    fn visit_tuple_7<A, B, C, D, E, F, G>(
        &mut self,
        input: &&'a str,
    ) -> (r: Result<(A, B, C, D, E, F, G), Error>) where
        A: Deserialize<Self>,
        B: Deserialize<Self>,
        C: Deserialize<Self>,
        D: Deserialize<Self>,
        E: Deserialize<Self>,
        F: Deserialize<Self>,
        G: Deserialize<Self>,

        ensures
            yields(decode(old(self)@, <(A, B, C, D, E, F, G)>::shape(), input@), final(self)@, r),
    {
        let ghost shapes = seq![
            A::shape(),
            B::shape(),
            C::shape(),
            D::shape(),
            E::shape(),
            F::shape(),
            G::shape(),
        ];
        let ghost mut values = Seq::<Value>::empty();
        let rest = self.open(input, Ghost(shapes))?;
        let (a, rest) = self.element::<A>(rest, false, Ghost(shapes), Ghost(values))?;
        proof {
            values = values.push(a.value());
        }
        let (b, rest) = self.element::<B>(rest, false, Ghost(shapes), Ghost(values))?;
        proof {
            values = values.push(b.value());
        }
        let (c, rest) = self.element::<C>(rest, false, Ghost(shapes), Ghost(values))?;
        proof {
            values = values.push(c.value());
        }
        let (d, rest) = self.element::<D>(rest, false, Ghost(shapes), Ghost(values))?;
        proof {
            values = values.push(d.value());
        }
        let (e, rest) = self.element::<E>(rest, false, Ghost(shapes), Ghost(values))?;
        proof {
            values = values.push(e.value());
        }
        let (f, rest) = self.element::<F>(rest, false, Ghost(shapes), Ghost(values))?;
        proof {
            values = values.push(f.value());
        }
        let (g, rest) = self.element::<G>(rest, true, Ghost(shapes), Ghost(values))?;
        proof {
            values = values.push(g.value());
        }
        assert(values =~= seq![
            a.value(),
            b.value(),
            c.value(),
            d.value(),
            e.value(),
            f.value(),
            g.value(),
        ]);
        self.close(rest, Ghost(shapes), Ghost(values))?;
        Ok((a, b, c, d, e, f, g))
    }

    /// Visit and deserialize a tuple type of size 8.
    fn visit_tuple_8<A, B, C, D, E, F, G, H>(
        &mut self,
        input: &&'a str,
    ) -> (r: Result<(A, B, C, D, E, F, G, H), Error>) where
        A: Deserialize<Self>,
        B: Deserialize<Self>,
        C: Deserialize<Self>,
        D: Deserialize<Self>,
        E: Deserialize<Self>,
        F: Deserialize<Self>,
        G: Deserialize<Self>,
        H: Deserialize<Self>,

        ensures
            yields(
                decode(old(self)@, <(A, B, C, D, E, F, G, H)>::shape(),
                input@), final(self)@, r,
            ),
    {
        let ghost shapes = seq![
            A::shape(),
            B::shape(),
            C::shape(),
            D::shape(),
            E::shape(),
            F::shape(),
            G::shape(),
            H::shape(),
        ];
        let ghost mut values = Seq::<Value>::empty();
        let rest = self.open(input, Ghost(shapes))?;
        let (a, rest) = self.element::<A>(rest, false, Ghost(shapes), Ghost(values))?;
        proof {
            values = values.push(a.value());
        }
        let (b, rest) = self.element::<B>(rest, false, Ghost(shapes), Ghost(values))?;
        proof {
            values = values.push(b.value());
        }
        let (c, rest) = self.element::<C>(rest, false, Ghost(shapes), Ghost(values))?;
        proof {
            values = values.push(c.value());
        }
        let (d, rest) = self.element::<D>(rest, false, Ghost(shapes), Ghost(values))?;
        proof {
            values = values.push(d.value());
        }
        let (e, rest) = self.element::<E>(rest, false, Ghost(shapes), Ghost(values))?;
        proof {
            values = values.push(e.value());
        }
        let (f, rest) = self.element::<F>(rest, false, Ghost(shapes), Ghost(values))?;
        proof {
            values = values.push(f.value());
        }
        let (g, rest) = self.element::<G>(rest, false, Ghost(shapes), Ghost(values))?;
        proof {
            values = values.push(g.value());
        }
        let (h, rest) = self.element::<H>(rest, true, Ghost(shapes), Ghost(values))?;
        proof {
            values = values.push(h.value());
        }
        assert(values =~= seq![
            a.value(),
            b.value(),
            c.value(),
            d.value(),
            e.value(),
            f.value(),
            g.value(),
            h.value(),
        ]);
        self.close(rest, Ghost(shapes), Ghost(values))?;
        Ok((a, b, c, d, e, f, g, h))
    }

    /// Visit and deserialize a tuple type of size 9.
    fn visit_tuple_9<A, B, C, D, E, F, G, H, I>(
        &mut self,
        input: &&'a str,
    ) -> (r: Result<(A, B, C, D, E, F, G, H, I), Error>) where
        A: Deserialize<Self>,
        B: Deserialize<Self>,
        C: Deserialize<Self>,
        D: Deserialize<Self>,
        E: Deserialize<Self>,
        F: Deserialize<Self>,
        G: Deserialize<Self>,
        H: Deserialize<Self>,
        I: Deserialize<Self>,

        ensures
            yields(
                decode(old(self)@, <(A, B, C, D, E, F, G, H, I)>::shape(),
                input@), final(self)@, r,
            ),
    {
        let ghost shapes = seq![
            A::shape(),
            B::shape(),
            C::shape(),
            D::shape(),
            E::shape(),
            F::shape(),
            G::shape(),
            H::shape(),
            I::shape(),
        ];
        let ghost mut values = Seq::<Value>::empty();
        let rest = self.open(input, Ghost(shapes))?;
        let (a, rest) = self.element::<A>(rest, false, Ghost(shapes), Ghost(values))?;
        proof {
            values = values.push(a.value());
        }
        let (b, rest) = self.element::<B>(rest, false, Ghost(shapes), Ghost(values))?;
        proof {
            values = values.push(b.value());
        }
        let (c, rest) = self.element::<C>(rest, false, Ghost(shapes), Ghost(values))?;
        proof {
            values = values.push(c.value());
        }
        let (d, rest) = self.element::<D>(rest, false, Ghost(shapes), Ghost(values))?;
        proof {
            values = values.push(d.value());
        }
        let (e, rest) = self.element::<E>(rest, false, Ghost(shapes), Ghost(values))?;
        proof {
            values = values.push(e.value());
        }
        let (f, rest) = self.element::<F>(rest, false, Ghost(shapes), Ghost(values))?;
        proof {
            values = values.push(f.value());
        }
        let (g, rest) = self.element::<G>(rest, false, Ghost(shapes), Ghost(values))?;
        proof {
            values = values.push(g.value());
        }
        let (h, rest) = self.element::<H>(rest, false, Ghost(shapes), Ghost(values))?;
        proof {
            values = values.push(h.value());
        }
        let (i, rest) = self.element::<I>(rest, true, Ghost(shapes), Ghost(values))?;
        proof {
            values = values.push(i.value());
        }
        assert(values =~= seq![
            a.value(),
            b.value(),
            c.value(),
            d.value(),
            e.value(),
            f.value(),
            g.value(),
            h.value(),
            i.value(),
        ]);
        self.close(rest, Ghost(shapes), Ghost(values))?;
        Ok((a, b, c, d, e, f, g, h, i))
    }

    /// Visit and deserialize a tuple type of size 10.
    fn visit_tuple_10<A, B, C, D, E, F, G, H, I, J>(
        &mut self,
        input: &&'a str,
    ) -> (r: Result<(A, B, C, D, E, F, G, H, I, J), Error>) where
        A: Deserialize<Self>,
        B: Deserialize<Self>,
        C: Deserialize<Self>,
        D: Deserialize<Self>,
        E: Deserialize<Self>,
        F: Deserialize<Self>,
        G: Deserialize<Self>,
        H: Deserialize<Self>,
        I: Deserialize<Self>,
        J: Deserialize<Self>,

        ensures
            yields(
                decode(old(self)@, <(A, B, C, D, E, F, G, H, I, J)>::shape(),
                input@), final(self)@, r,
            ),
    {
        let ghost shapes = seq![
            A::shape(),
            B::shape(),
            C::shape(),
            D::shape(),
            E::shape(),
            F::shape(),
            G::shape(),
            H::shape(),
            I::shape(),
            J::shape(),
        ];
        let ghost mut values = Seq::<Value>::empty();
        let rest = self.open(input, Ghost(shapes))?;
        let (a, rest) = self.element::<A>(rest, false, Ghost(shapes), Ghost(values))?;
        proof {
            values = values.push(a.value());
        }
        let (b, rest) = self.element::<B>(rest, false, Ghost(shapes), Ghost(values))?;
        proof {
            values = values.push(b.value());
        }
        let (c, rest) = self.element::<C>(rest, false, Ghost(shapes), Ghost(values))?;
        proof {
            values = values.push(c.value());
        }
        let (d, rest) = self.element::<D>(rest, false, Ghost(shapes), Ghost(values))?;
        proof {
            values = values.push(d.value());
        }
        let (e, rest) = self.element::<E>(rest, false, Ghost(shapes), Ghost(values))?;
        proof {
            values = values.push(e.value());
        }
        let (f, rest) = self.element::<F>(rest, false, Ghost(shapes), Ghost(values))?;
        proof {
            values = values.push(f.value());
        }
        let (g, rest) = self.element::<G>(rest, false, Ghost(shapes), Ghost(values))?;
        proof {
            values = values.push(g.value());
        }
        let (h, rest) = self.element::<H>(rest, false, Ghost(shapes), Ghost(values))?;
        proof {
            values = values.push(h.value());
        }
        let (i, rest) = self.element::<I>(rest, false, Ghost(shapes), Ghost(values))?;
        proof {
            values = values.push(i.value());
        }
        let (j, rest) = self.element::<J>(rest, true, Ghost(shapes), Ghost(values))?;
        proof {
            values = values.push(j.value());
        }
        assert(values =~= seq![
            a.value(),
            b.value(),
            c.value(),
            d.value(),
            e.value(),
            f.value(),
            g.value(),
            h.value(),
            i.value(),
            j.value(),
        ]);
        self.close(rest, Ghost(shapes), Ghost(values))?;
        Ok((a, b, c, d, e, f, g, h, i, j))
    }

    /// Visit and deserialize a tuple type of size 11.
    fn visit_tuple_11<A, B, C, D, E, F, G, H, I, J, K>(
        &mut self,
        input: &&'a str,
    ) -> (r: Result<(A, B, C, D, E, F, G, H, I, J, K), Error>) where
        A: Deserialize<Self>,
        B: Deserialize<Self>,
        C: Deserialize<Self>,
        D: Deserialize<Self>,
        E: Deserialize<Self>,
        F: Deserialize<Self>,
        G: Deserialize<Self>,
        H: Deserialize<Self>,
        I: Deserialize<Self>,
        J: Deserialize<Self>,
        K: Deserialize<Self>,

        ensures
            yields(
                decode(old(self)@, <(A, B, C, D, E, F, G, H, I, J, K)>::shape(),
                input@), final(self)@, r,
            ),
    {
        let ghost shapes = seq![
            A::shape(),
            B::shape(),
            C::shape(),
            D::shape(),
            E::shape(),
            F::shape(),
            G::shape(),
            H::shape(),
            I::shape(),
            J::shape(),
            K::shape(),
        ];
        let ghost mut values = Seq::<Value>::empty();
        let rest = self.open(input, Ghost(shapes))?;
        let (a, rest) = self.element::<A>(rest, false, Ghost(shapes), Ghost(values))?;
        proof {
            values = values.push(a.value());
        }
        let (b, rest) = self.element::<B>(rest, false, Ghost(shapes), Ghost(values))?;
        proof {
            values = values.push(b.value());
        }
        let (c, rest) = self.element::<C>(rest, false, Ghost(shapes), Ghost(values))?;
        proof {
            values = values.push(c.value());
        }
        let (d, rest) = self.element::<D>(rest, false, Ghost(shapes), Ghost(values))?;
        proof {
            values = values.push(d.value());
        }
        let (e, rest) = self.element::<E>(rest, false, Ghost(shapes), Ghost(values))?;
        proof {
            values = values.push(e.value());
        }
        let (f, rest) = self.element::<F>(rest, false, Ghost(shapes), Ghost(values))?;
        proof {
            values = values.push(f.value());
        }
        let (g, rest) = self.element::<G>(rest, false, Ghost(shapes), Ghost(values))?;
        proof {
            values = values.push(g.value());
        }
        let (h, rest) = self.element::<H>(rest, false, Ghost(shapes), Ghost(values))?;
        proof {
            values = values.push(h.value());
        }
        let (i, rest) = self.element::<I>(rest, false, Ghost(shapes), Ghost(values))?;
        proof {
            values = values.push(i.value());
        }
        let (j, rest) = self.element::<J>(rest, false, Ghost(shapes), Ghost(values))?;
        proof {
            values = values.push(j.value());
        }
        let (k, rest) = self.element::<K>(rest, true, Ghost(shapes), Ghost(values))?;
        proof {
            values = values.push(k.value());
        }
        assert(values =~= seq![
            a.value(),
            b.value(),
            c.value(),
            d.value(),
            e.value(),
            f.value(),
            g.value(),
            h.value(),
            i.value(),
            j.value(),
            k.value(),
        ]);
        self.close(rest, Ghost(shapes), Ghost(values))?;
        Ok((a, b, c, d, e, f, g, h, i, j, k))
    }

    /// Visit and deserialize a tuple type of size 12.
    fn visit_tuple_12<A, B, C, D, E, F, G, H, I, J, K, L>(
        &mut self,
        input: &&'a str,
    ) -> (r: Result<(A, B, C, D, E, F, G, H, I, J, K, L), Error>) where
        A: Deserialize<Self>,
        B: Deserialize<Self>,
        C: Deserialize<Self>,
        D: Deserialize<Self>,
        E: Deserialize<Self>,
        F: Deserialize<Self>,
        G: Deserialize<Self>,
        H: Deserialize<Self>,
        I: Deserialize<Self>,
        J: Deserialize<Self>,
        K: Deserialize<Self>,
        L: Deserialize<Self>,

        ensures
            yields(
                decode(old(self)@, <(A, B, C, D, E, F, G, H, I, J, K, L)>::shape(),
                input@), final(self)@, r,
            ),
    {
        let ghost shapes = seq![
            A::shape(),
            B::shape(),
            C::shape(),
            D::shape(),
            E::shape(),
            F::shape(),
            G::shape(),
            H::shape(),
            I::shape(),
            J::shape(),
            K::shape(),
            L::shape(),
        ];
        let ghost mut values = Seq::<Value>::empty();
        let rest = self.open(input, Ghost(shapes))?;
        let (a, rest) = self.element::<A>(rest, false, Ghost(shapes), Ghost(values))?;
        proof {
            values = values.push(a.value());
        }
        let (b, rest) = self.element::<B>(rest, false, Ghost(shapes), Ghost(values))?;
        proof {
            values = values.push(b.value());
        }
        let (c, rest) = self.element::<C>(rest, false, Ghost(shapes), Ghost(values))?;
        proof {
            values = values.push(c.value());
        }
        let (d, rest) = self.element::<D>(rest, false, Ghost(shapes), Ghost(values))?;
        proof {
            values = values.push(d.value());
        }
        let (e, rest) = self.element::<E>(rest, false, Ghost(shapes), Ghost(values))?;
        proof {
            values = values.push(e.value());
        }
        let (f, rest) = self.element::<F>(rest, false, Ghost(shapes), Ghost(values))?;
        proof {
            values = values.push(f.value());
        }
        let (g, rest) = self.element::<G>(rest, false, Ghost(shapes), Ghost(values))?;
        proof {
            values = values.push(g.value());
        }
        let (h, rest) = self.element::<H>(rest, false, Ghost(shapes), Ghost(values))?;
        proof {
            values = values.push(h.value());
        }
        let (i, rest) = self.element::<I>(rest, false, Ghost(shapes), Ghost(values))?;
        proof {
            values = values.push(i.value());
        }
        let (j, rest) = self.element::<J>(rest, false, Ghost(shapes), Ghost(values))?;
        proof {
            values = values.push(j.value());
        }
        let (k, rest) = self.element::<K>(rest, false, Ghost(shapes), Ghost(values))?;
        proof {
            values = values.push(k.value());
        }
        let (l, rest) = self.element::<L>(rest, true, Ghost(shapes), Ghost(values))?;
        proof {
            values = values.push(l.value());
        }
        assert(values =~= seq![
            a.value(),
            b.value(),
            c.value(),
            d.value(),
            e.value(),
            f.value(),
            g.value(),
            h.value(),
            i.value(),
            j.value(),
            k.value(),
            l.value(),
        ]);
        self.close(rest, Ghost(shapes), Ghost(values))?;
        Ok((a, b, c, d, e, f, g, h, i, j, k, l))
    }

    /// Visit and deserialize a u8 type.
    fn visit_u8(&mut self, input: &&'a str) -> (r: Result<u8, Error>)
        ensures
            yields(decode(old(self)@, Shape::Int(Integer::U8), input@), final(self)@, r),
    {
        let n = self.integer(input, Integer::U8)?;
        Ok(n.unsigned() as u8)
    }

    /// Visit and deserialize a u16 type.
    fn visit_u16(&mut self, input: &&'a str) -> (r: Result<u16, Error>)
        ensures
            yields(decode(old(self)@, Shape::Int(Integer::U16), input@), final(self)@, r),
    {
        let n = self.integer(input, Integer::U16)?;
        Ok(n.unsigned() as u16)
    }

    /// Visit and deserialize a u32 type.
    fn visit_u32(&mut self, input: &&'a str) -> (r: Result<u32, Error>)
        ensures
            yields(decode(old(self)@, Shape::Int(Integer::U32), input@), final(self)@, r),
    {
        let n = self.integer(input, Integer::U32)?;
        Ok(n.unsigned() as u32)
    }

    /// Visit and deserialize a u64 type.
    fn visit_u64(&mut self, input: &&'a str) -> (r: Result<u64, Error>)
        ensures
            yields(decode(old(self)@, Shape::Int(Integer::U64), input@), final(self)@, r),
    {
        let n = self.integer(input, Integer::U64)?;
        Ok(n.unsigned() as u64)
    }

    /// Visit and deserialize a u128 type.
    fn visit_u128(&mut self, input: &&'a str) -> (r: Result<u128, Error>)
        ensures
            yields(decode(old(self)@, Shape::Int(Integer::U128), input@), final(self)@, r),
    {
        let n = self.integer(input, Integer::U128)?;
        Ok(n.unsigned())
    }

    /// Visit and deserialize a unit type.
    fn visit_unit(&mut self, input: &&'a str) -> (r: Result<(), Error>)
        ensures
            yields(decode(old(self)@, Shape::Unit, input@), final(self)@, r),
    {
        self.word(input, "null", "null", Ghost(Value::Unit))
    }

    /// Visit and deserialize a usize type.
    fn visit_usize(&mut self, input: &&'a str) -> (r: Result<usize, Error>)
        ensures
            yields(decode(old(self)@, Shape::Int(Integer::Usize), input@), final(self)@, r),
    {
        let n = self.integer(input, Integer::Usize)?;
        Ok(n.unsigned() as usize)
    }
}

} // verus!
