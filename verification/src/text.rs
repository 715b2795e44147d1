//! Characters and character sequences: the classes the codec tells apart,
//! trimming, and the conversions between `str`, `String` and `Vec<char>`.

use vstd::prelude::*;

verus! {

/// Whether `c` has the Unicode `White_Space` property.
pub open spec fn whitespace(c: char) -> bool {
    let n = c as u32;
    ||| 0x09 <= n <= 0x0D
    ||| n == 0x20
    ||| n == 0x85
    ||| n == 0xA0
    ||| n == 0x1680
    ||| 0x2000 <= n <= 0x200A
    ||| n == 0x2028
    ||| n == 0x2029
    ||| n == 0x202F
    ||| n == 0x205F
    ||| n == 0x3000
}

/// Whether `c` is one of the ASCII digits `0` to `9`.
pub open spec fn digit(c: char) -> bool {
    '0' <= c <= '9'
}

/// The number of whitespace characters that `s` begins with.
pub open spec fn leading_spaces(s: Seq<char>) -> nat
    decreases s.len(),
{
    if s.len() > 0 && whitespace(s[0]) {
        1 + leading_spaces(s.skip(1))
    } else {
        0
    }
}

/// The number of whitespace characters that `s` ends with.
pub open spec fn trailing_spaces(s: Seq<char>) -> nat
    decreases s.len(),
{
    if s.len() > 0 && whitespace(s.last()) {
        1 + trailing_spaces(s.drop_last())
    } else {
        0
    }
}

/// `s` without its leading whitespace.
pub open spec fn trim_start(s: Seq<char>) -> Seq<char> {
    s.skip(leading_spaces(s) as int)
}

/// `s` without its trailing whitespace.
pub open spec fn trim_end(s: Seq<char>) -> Seq<char> {
    s.take(s.len() - trailing_spaces(s))
}

/// `s` without the whitespace on either side.
pub open spec fn trim(s: Seq<char>) -> Seq<char> {
    trim_end(trim_start(s))
}

/// `leading_spaces(s)` is the one index at which a run of whitespace from
/// the start of `s` stops.
pub proof fn lemma_leading_spaces(s: Seq<char>, n: int)
    requires
        0 <= n <= s.len(),
        forall|j: int| 0 <= j < n ==> whitespace(#[trigger] s[j]),
        n == s.len() || !whitespace(s[n]),
    ensures
        leading_spaces(s) == n,
    decreases n,
{
    if n > 0 {
        let rest = s.skip(1);
        assert forall|j: int| 0 <= j < n - 1 implies whitespace(#[trigger] rest[j]) by {
            assert(rest[j] == s[j + 1]);
        }
        lemma_leading_spaces(rest, n - 1);
    }
}

/// `trailing_spaces(s)` is the one length of a run of whitespace up to the
/// end of `s`.
pub proof fn lemma_trailing_spaces(s: Seq<char>, n: int)
    requires
        0 <= n <= s.len(),
        forall|j: int| s.len() - n <= j < s.len() ==> whitespace(#[trigger] s[j]),
        n == s.len() || !whitespace(s[s.len() - n - 1]),
    ensures
        trailing_spaces(s) == n,
    decreases n,
{
    if n > 0 {
        let rest = s.drop_last();
        assert forall|j: int| rest.len() - (n - 1) <= j < rest.len() implies whitespace(
            #[trigger] rest[j],
        ) by {
            assert(rest[j] == s[j]);
        }
        lemma_trailing_spaces(rest, n - 1);
    }
}

/// The bounds of the two counts, and what stands next to each run.
pub proof fn lemma_spaces_bounds(s: Seq<char>)
    ensures
        leading_spaces(s) <= s.len(),
        trailing_spaces(s) <= s.len(),
        forall|j: int| 0 <= j < leading_spaces(s) ==> whitespace(#[trigger] s[j]),
        leading_spaces(s) < s.len() ==> !whitespace(s[leading_spaces(s) as int]),
        forall|j: int|
            s.len() - trailing_spaces(s) <= j < s.len() ==> whitespace(#[trigger] s[j]),
        trailing_spaces(s) < s.len() ==> !whitespace(s[s.len() - trailing_spaces(s) - 1]),
    decreases s.len(),
{
    if s.len() > 0 {
        if whitespace(s[0]) {
            let rest = s.skip(1);
            lemma_spaces_bounds(rest);
            assert forall|j: int| 0 <= j < leading_spaces(s) implies whitespace(
                #[trigger] s[j],
            ) by {
                if j > 0 {
                    assert(s[j] == rest[j - 1]);
                }
            }
            if leading_spaces(s) < s.len() {
                assert(s[leading_spaces(s) as int] == rest[leading_spaces(rest) as int]);
            }
        }
        if whitespace(s.last()) {
            let rest = s.drop_last();
            lemma_spaces_bounds(rest);
            assert forall|j: int| s.len() - trailing_spaces(s) <= j < s.len() implies whitespace(
                #[trigger] s[j],
            ) by {
                if j < s.len() - 1 {
                    assert(s[j] == rest[j]);
                }
            }
            if trailing_spaces(s) < s.len() {
                assert(s[s.len() - trailing_spaces(s) - 1] == rest[rest.len() - trailing_spaces(
                    rest,
                ) - 1]);
            }
        }
    }
}

/// Behind its leading whitespace a text begins with none, so trimming it
/// there only takes the trailing whitespace away.
pub proof fn lemma_trim_rest(s: Seq<char>)
    ensures
        leading_spaces(trim_start(s)) == 0,
        trim(trim_start(s)) == trim_end(trim_start(s)),
        trim(s) == trim_end(trim_start(s)),
{
    lemma_spaces_bounds(s);
    let rest = trim_start(s);
    if rest.len() > 0 {
        assert(rest[0] == s[leading_spaces(s) as int]);
    }
    assert(rest.skip(0) =~= rest);
}

/// Whether `c` is Unicode whitespace.
pub fn is_whitespace(c: char) -> (r: bool)
    ensures
        r == whitespace(c),
{
    let n: u32 = c as u32;
    (0x09 <= n && n <= 0x0D) || n == 0x20 || n == 0x85 || n == 0xA0 || n == 0x1680 || (0x2000 <= n
        && n <= 0x200A) || n == 0x2028 || n == 0x2029 || n == 0x202F || n == 0x205F || n == 0x3000
}

/// Whether `c` is an ASCII digit.
pub fn is_digit(c: char) -> (r: bool)
    ensures
        r == digit(c),
{
    '0' <= c && c <= '9'
}

/// Taken on trust of `String::push`: it appends the character `c` to the
/// end of the text and leaves the characters before it as they were.
pub assume_specification[ String::push ](text: &mut String, c: char)
    ensures
        final(text)@ == old(text)@.push(c),
;

/// The characters of `s`, in order.
pub fn to_chars(s: &str) -> (v: Vec<char>)
    ensures
        v@ == s@,
{
    let mut v: Vec<char> = Vec::new();
    for c in it: s.chars()
        invariant
            v.len() == it.index(),
            it.seq() == s@,
            forall|j: int| 0 <= j < v.len() ==> v[j] == it.seq()[j],
    {
        v.push(c);
    }
    assert(v@ =~= s@);
    v
}

/// The text made of the characters `v[from..to]`.
pub fn to_text(v: &Vec<char>, from: usize, to: usize) -> (s: String)
    requires
        from <= to <= v.len(),
    ensures
        s@ == v@.subrange(from as int, to as int),
{
    let mut s = String::new();
    let mut i: usize = from;
    while i < to
        invariant
            from <= i <= to <= v.len(),
            s@ == v@.subrange(from as int, i as int),
        decreases to - i,
    {
        s.push(v[i]);
        i += 1;
        assert(v@.subrange(from as int, i as int) =~= v@.subrange(from as int, i - 1).push(
            v@[i - 1],
        ));
    }
    s
}

/// The text that holds the one character `c`.
pub fn char_text(c: char) -> (s: String)
    ensures
        s@ == seq![c],
{
    let mut s = String::new();
    s.push(c);
    assert(s@ =~= seq![c]);
    s
}

/// Whether `v` holds exactly the characters of `word`.
pub fn spells(v: &Vec<char>, word: &str) -> (r: bool)
    ensures
        r == (v@ == word@),
{
    let w = to_chars(word);
    if v.len() != w.len() {
        return false;
    }
    let mut i: usize = 0;
    while i < v.len()
        invariant
            i <= v.len() == w.len(),
            w@ == word@,
            forall|j: int| 0 <= j < i ==> v[j] == w[j],
        decreases v.len() - i,
    {
        if v[i] != w[i] {
            return false;
        }
        i += 1;
    }
    assert(v@ =~= w@);
    true
}

/// The whitespace that `v` begins with, counted.
pub fn count_leading_spaces(v: &Vec<char>) -> (n: usize)
    ensures
        n == leading_spaces(v@),
        n <= v.len(),
{
    let mut n: usize = 0;
    while n < v.len() && is_whitespace(v[n])
        invariant
            n <= v.len(),
            forall|j: int| 0 <= j < n ==> whitespace(#[trigger] v@[j]),
        decreases v.len() - n,
    {
        n += 1;
    }
    proof {
        lemma_leading_spaces(v@, n as int);
    }
    n
}

/// The bounds `(from, to)` of `trim(v@)` within `v`.
pub fn trim_bounds(v: &Vec<char>) -> (r: (usize, usize))
    ensures
        r.0 <= r.1 <= v.len(),
        r.0 == leading_spaces(v@),
        trim(v@) == v@.subrange(r.0 as int, r.1 as int),
{
    let from = count_leading_spaces(v);
    let mut to: usize = v.len();
    while to > from && is_whitespace(v[to - 1])
        invariant
            from <= to <= v.len(),
            forall|j: int| to <= j < v.len() ==> whitespace(#[trigger] v@[j]),
        decreases to,
    {
        to -= 1;
    }
    proof {
        let rest = v@.skip(from as int);
        lemma_spaces_bounds(v@);
        assert forall|j: int| rest.len() - (v.len() - to) <= j < rest.len() implies whitespace(
            #[trigger] rest[j],
        ) by {
            assert(rest[j] == v@[j + from]);
        }
        if to > from {
            assert(rest[rest.len() - (v.len() - to) - 1] == v@[to - 1]);
        }
        lemma_trailing_spaces(rest, v.len() - to);
        assert(trim(v@) =~= v@.subrange(from as int, to as int));
    }
    (from, to)
}

/// `s` without the whitespace on either side.
pub fn trim_text<'a>(s: &'a str) -> (r: &'a str)
    ensures
        r@ == trim(s@),
{
    let v = to_chars(s);
    let (from, to) = trim_bounds(&v);
    s.substring_char(from, to)
}

} // verus!
