//! What the scan for a delimiter passes: texts without the delimiter,
//! and quoted texts whatever they hold.

use crate::deserialize::grammar::{find_from, scan_step, Flags};
use crate::laws::values::lemma_decimal_shape;
use crate::serialize::notation::{encode, escape, escape_char, quote};
use crate::value::Value;
use vstd::prelude::*;

verus! {

/// The memory of a scan outside of any quoted text.
pub open spec fn outside() -> Flags {
    Flags { quote: false, backslash: false }
}

/// The memory of a scan that has passed the characters of `s` from `i` up
/// to `j` without stopping; `None` where it stops before `j`.
pub open spec fn passes(s: Seq<char>, i: int, j: int, flags: Flags, until: char) -> Option<Flags>
    decreases j - i,
{
    if i >= j || i < 0 || i >= s.len() {
        Some(flags)
    } else {
        match scan_step(flags, s[i], until) {
            None => None,
            Some(next) => passes(s, i + 1, j, next, until),
        }
    }
}

/// A scan that passes a stretch of the text stops where a scan from the
/// end of the stretch does.
pub(crate) proof fn lemma_passes(s: Seq<char>, i: int, j: int, flags: Flags, until: char)
    requires
        0 <= i <= j <= s.len(),
        passes(s, i, j, flags, until) is Some,
    ensures
        find_from(s, i, flags, until) == find_from(s, j, passes(s, i, j, flags, until)->0, until),
    decreases j - i,
{
    if i < j {
        lemma_passes(s, i + 1, j, scan_step(flags, s[i], until)->0, until);
    }
}

/// Passing two stretches one after the other is passing them joined.
pub(crate) proof fn lemma_passes_join(
    s: Seq<char>,
    i: int,
    k: int,
    j: int,
    flags: Flags,
    until: char,
)
    requires
        0 <= i <= k <= j <= s.len(),
        passes(s, i, k, flags, until) is Some,
    ensures
        passes(s, i, j, flags, until) == passes(s, k, j, passes(s, i, k, flags, until)->0, until),
    decreases k - i,
{
    if i < k {
        lemma_passes_join(s, i + 1, k, j, scan_step(flags, s[i], until)->0, until);
    }
}

/// A scan passes characters that are neither a quote, nor a backslash, nor
/// the delimiter, and remembers nothing of them.
pub(crate) proof fn lemma_passes_plain(s: Seq<char>, i: int, j: int, flags: Flags, until: char)
    requires
        0 <= i <= j <= s.len(),
        !flags.backslash,
        forall|k: int| i <= k < j ==> #[trigger] s[k] != '"' && s[k] != '\\' && s[k] != until,
    ensures
        passes(s, i, j, flags, until) == Some(flags),
    decreases j - i,
{
    if i < j {
        assert(s[i] != '"' && s[i] != '\\' && s[i] != until);
        lemma_passes_plain(s, i + 1, j, flags, until);
    }
}

/// A scan passes an escaped text: inside a quoted text whatever the
/// delimiter, and outside of one where the delimiter is the quote.
pub(crate) proof fn lemma_passes_escaped(
    s: Seq<char>,
    i: int,
    text: Seq<char>,
    flags: Flags,
    until: char,
)
    requires
        0 <= i,
        i + escape(text).len() <= s.len(),
        s.subrange(i, i + escape(text).len()) == escape(text),
        !flags.backslash,
        flags.quote || until == '"',
    ensures
        passes(s, i, i + escape(text).len(), flags, until) == Some(flags),
    decreases text.len(),
{
    if text.len() > 0 {
        let c = text[0];
        let whole = escape(text);
        let tail = escape(text.skip(1));
        let j = i + whole.len();
        let step = escape_char(c).len() as int;
        assert(whole =~= escape_char(c) + tail);
        assert(s[i] == whole[0]);
        assert(s.subrange(i + step, j) =~= tail) by {
            assert forall|k: int| 0 <= k < tail.len() implies s.subrange(i + step, j)[k]
                == tail[k] by {
                assert(s.subrange(i, j)[k + step] == whole[k + step]);
            }
        }
        lemma_passes_escaped(s, i + step, text.skip(1), flags, until);
        if c == '"' || c == '\\' {
            assert(s[i + 1] == s.subrange(i, j)[1]);
            assert(whole[1] == c);
            reveal_with_fuel(passes, 3);
            assert(passes(s, i, j, flags, until) == passes(s, i + 2, j, flags, until));
        } else {
            assert(whole[0] == c);
            reveal_with_fuel(passes, 2);
            assert(passes(s, i, j, flags, until) == passes(s, i + 1, j, flags, until));
        }
    }
}

/// A scan for a delimiter passes a quoted text, and is outside of it
/// behind the closing quote.
pub(crate) proof fn lemma_passes_quoted(s: Seq<char>, i: int, text: Seq<char>, until: char)
    requires
        0 <= i,
        i + quote(text).len() <= s.len(),
        s.subrange(i, i + quote(text).len()) == quote(text),
        until != '"',
    ensures
        passes(s, i, i + quote(text).len(), outside(), until) == Some(outside()),
{
    let q = quote(text);
    let e = escape(text);
    let j = i + q.len();
    let inside = Flags { quote: true, backslash: false };
    assert forall|k: int| i <= k < j implies s[k] == q[k - i] by {
        assert(s.subrange(i, j)[k - i] == s[k]);
    }
    assert(s[i] == q[0]);
    assert(s[j - 1] == q[q.len() - 1]);
    assert(s.subrange(i + 1, j - 1) =~= e);
    lemma_passes_escaped(s, i + 1, text, inside, until);
    reveal_with_fuel(passes, 2);
    assert(passes(s, i, i + 1, outside(), until) == Some(inside));
    assert(passes(s, j - 1, j, inside, until) == Some(outside()));
    lemma_passes_join(s, i, i + 1, j - 1, outside(), until);
    lemma_passes_join(s, i, j - 1, j, outside(), until);
}

/// A scan for the delimiter of a tuple's element passes the text of a
/// value that is no tuple, and is outside of any quoted text behind it.
pub(crate) proof fn lemma_passes_value(s: Seq<char>, i: int, value: Value, until: char)
    requires
        0 <= i,
        i + encode(value).len() <= s.len(),
        s.subrange(i, i + encode(value).len()) == encode(value),
        !(value is Tuple),
        until == ',' || until == ']',
    ensures
        passes(s, i, i + encode(value).len(), outside(), until) == Some(outside()),
{
    let e = encode(value);
    let j = i + e.len();
    assert forall|k: int| i <= k < j implies s[k] == e[k - i] by {
        assert(s.subrange(i, j)[k - i] == s[k]);
    }
    reveal_strlit("null");
    reveal_strlit("true");
    reveal_strlit("false");
    match value {
        Value::Int(n) => {
            lemma_decimal_shape(n);
            lemma_passes_plain(s, i, j, outside(), until);
        },
        Value::Char(c) => {
            lemma_passes_quoted(s, i, seq![c], until);
        },
        Value::Text(text) => {
            lemma_passes_quoted(s, i, text, until);
        },
        _ => {
            lemma_passes_plain(s, i, j, outside(), until);
        },
    }
}

} // verus!
