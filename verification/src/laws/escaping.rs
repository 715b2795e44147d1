//! Escaping and unescaping undo each other.

use crate::deserialize::grammar::{replace_pair, unescape};
use crate::serialize::notation::{escape, escape_char};
use vstd::prelude::*;

verus! {

/// `s` with every backslash doubled: what an escaped text is once its
/// escaped quotes are unescaped.
pub open spec fn doubled(s: Seq<char>) -> Seq<char>
    decreases s.len(),
{
    if s.len() == 0 {
        Seq::empty()
    } else if s[0] == '\\' {
        seq!['\\', '\\'] + doubled(s.skip(1))
    } else {
        seq![s[0]] + doubled(s.skip(1))
    }
}

/// An escaped text does not begin with a quote.
pub(crate) proof fn lemma_escape_head(s: Seq<char>)
    ensures
        escape(s).len() > 0 ==> escape(s)[0] != '"',
{
    if s.len() > 0 {
        assert(escape(s)[0] == escape_char(s[0])[0]);
    }
}

/// Unescaping the quotes of an escaped text leaves the text with its
/// backslashes doubled.
pub(crate) proof fn lemma_unescape_quotes(s: Seq<char>)
    ensures
        replace_pair(escape(s), '\\', '"', '"') == doubled(s),
    decreases s.len(),
{
    if s.len() > 0 {
        let c = s[0];
        let tail = escape(s.skip(1));
        let whole = escape(s);
        lemma_unescape_quotes(s.skip(1));
        lemma_escape_head(s.skip(1));
        if c == '"' {
            assert(whole.skip(2) =~= tail);
            assert(whole[0] == '\\' && whole[1] == '"');
            assert(replace_pair(whole, '\\', '"', '"') =~= doubled(s));
        } else if c == '\\' {
            let second = whole.skip(1);
            assert(whole[0] == '\\' && whole[1] == '\\');
            assert(second.skip(1) =~= tail);
            assert(second[0] == '\\');
            if second.len() >= 2 {
                assert(second[1] == tail[0]);
            }
            assert(replace_pair(second, '\\', '"', '"') == seq!['\\'] + replace_pair(
                tail,
                '\\',
                '"',
                '"',
            ));
            assert(replace_pair(whole, '\\', '"', '"') =~= doubled(s));
        } else {
            assert(whole.skip(1) =~= tail);
            assert(whole[0] == c);
            assert(replace_pair(whole, '\\', '"', '"') =~= doubled(s));
        }
    }
}

/// Unescaping the backslashes of a text whose backslashes are doubled
/// gives the text.
pub(crate) proof fn lemma_unescape_backslashes(s: Seq<char>)
    ensures
        replace_pair(doubled(s), '\\', '\\', '\\') == s,
    decreases s.len(),
{
    if s.len() > 0 {
        let c = s[0];
        let tail = doubled(s.skip(1));
        let whole = doubled(s);
        lemma_unescape_backslashes(s.skip(1));
        if c == '\\' {
            assert(whole.skip(2) =~= tail);
            assert(whole[0] == '\\' && whole[1] == '\\');
        } else {
            assert(whole.skip(1) =~= tail);
            assert(whole[0] == c);
        }
        assert(replace_pair(whole, '\\', '\\', '\\') =~= seq![c] + s.skip(1));
        assert(seq![c] + s.skip(1) =~= s);
    } else {
        assert(replace_pair(doubled(s), '\\', '\\', '\\') =~= s);
    }
}

/// Escaping is undone by unescaping: every text is what its escaped form
/// stands for.
pub proof fn unescape_inverts_escape(s: Seq<char>)
    ensures
        unescape(escape(s)) == s,
{
    lemma_unescape_quotes(s);
    lemma_unescape_backslashes(s);
}

} // verus!
