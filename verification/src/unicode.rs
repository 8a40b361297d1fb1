//! What this crate takes from the standard library's Unicode tables: the
//! lowercase form of a text and the white space characters; and trimming,
//! built on the second.

use vstd::prelude::*;
use vstd::string::StrSliceExecFns;

verus! {

/// The lowercase form of a text, as `str::to_lowercase` computes it. It is
/// a table of the Unicode Character Database and is not written out here:
/// the crate reasons about the name alone.
pub uninterp spec fn lowercase(s: Seq<char>) -> Seq<char>;

/// Whether a character is white space: one of the characters with the
/// Unicode property `White_Space`. They are the controls from tab to
/// carriage return, the space, the next-line control, the no-break space,
/// the Ogham space mark, the spaces from en quad to hair space, the line
/// and the paragraph separator, the narrow no-break space, the medium
/// mathematical space and the ideographic space.
pub open spec fn whitespace(c: char) -> bool {
    ||| '\u{9}' <= c <= '\u{d}'
    ||| c == ' '
    ||| c == '\u{85}'
    ||| c == '\u{a0}'
    ||| c == '\u{1680}'
    ||| '\u{2000}' <= c <= '\u{200a}'
    ||| c == '\u{2028}'
    ||| c == '\u{2029}'
    ||| c == '\u{202f}'
    ||| c == '\u{205f}'
    ||| c == '\u{3000}'
}

/// `str::to_lowercase` returns a new string that depends on the characters
/// of its argument alone; the contract gives that string its name and claims
/// nothing else of it.
pub assume_specification[ str::to_lowercase ](s: &str) -> (r: String)
    ensures
        r@ == lowercase(s@),
;

/// `char::is_whitespace` tells whether a character has the Unicode property
/// `White_Space`; the contract says which characters have it.
pub assume_specification[ char::is_whitespace ](c: char) -> (r: bool)
    ensures
        r == whitespace(c),
;

/// `s` without the white space at its start.
pub open spec fn trim_start(s: Seq<char>) -> Seq<char>
    decreases s.len(),
{
    if s.len() > 0 && whitespace(s.first()) {
        trim_start(s.drop_first())
    } else {
        s
    }
}

/// `s` without the white space at its end.
pub open spec fn trim_end(s: Seq<char>) -> Seq<char>
    decreases s.len(),
{
    if s.len() > 0 && whitespace(s.last()) {
        trim_end(s.drop_last())
    } else {
        s
    }
}

/// `s` without the white space at either end.
pub open spec fn trimmed(s: Seq<char>) -> Seq<char> {
    trim_end(trim_start(s))
}

/// Whether every character of `s` is white space.
pub open spec fn blank(s: Seq<char>) -> bool {
    forall|i: int| 0 <= i < s.len() ==> whitespace(#[trigger] s[i])
}

/// Whether `s` has a first and a last character and neither is white
/// space, so that trimming leaves it as it is.
pub open spec fn tight(s: Seq<char>) -> bool {
    s.len() > 0 && !whitespace(s.first()) && !whitespace(s.last())
}

/// White space in front of a text is trimmed away.
pub proof fn lemma_trim_start_blank(head: Seq<char>, s: Seq<char>)
    requires
        blank(head),
    ensures
        trim_start(head + s) == trim_start(s),
    decreases head.len(),
{
    if head.len() == 0 {
        assert(head + s =~= s);
    } else {
        assert((head + s).first() == head[0]);
        assert((head + s).drop_first() =~= head.drop_first() + s);
        lemma_trim_start_blank(head.drop_first(), s);
    }
}

/// White space behind a text is trimmed away.
pub proof fn lemma_trim_end_blank(s: Seq<char>, tail: Seq<char>)
    requires
        blank(tail),
    ensures
        trim_end(s + tail) == trim_end(s),
    decreases tail.len(),
{
    if tail.len() == 0 {
        assert(s + tail =~= s);
    } else {
        assert((s + tail).last() == tail.last());
        assert((s + tail).drop_last() =~= s + tail.drop_last());
        lemma_trim_end_blank(s, tail.drop_last());
    }
}

/// A text between white space is what is left of the whole after trimming,
/// where the text itself begins and ends with no white space.
pub proof fn lemma_trimmed_tight(head: Seq<char>, s: Seq<char>, tail: Seq<char>)
    requires
        blank(head),
        blank(tail),
        tight(s),
    ensures
        trimmed(head + s + tail) == s,
{
    assert(head + s + tail =~= head + (s + tail));
    lemma_trim_start_blank(head, s + tail);
    assert((s + tail).first() == s.first());
    lemma_trim_end_blank(s, tail);
}

/// Of white space alone, trimming leaves nothing.
pub proof fn lemma_trimmed_blank(s: Seq<char>)
    requires
        blank(s),
    ensures
        trimmed(s) == Seq::<char>::empty(),
{
    lemma_trim_start_blank(s, Seq::<char>::empty());
    assert(s + Seq::<char>::empty() =~= s);
}

/// `s` without the white space at either end.
pub fn trim(s: &str) -> (r: &str)
    ensures
        r@ == trimmed(s@),
{
    let chars = crate::text::chars_of(s);
    let n = chars.len();
    let mut i: usize = 0;
    assert(s@.skip(0) =~= s@);
    while i < n && chars[i].is_whitespace()
        invariant
            i <= n,
            n == chars.len(),
            chars@ == s@,
            trim_start(s@) == trim_start(s@.skip(i as int)),
        decreases n - i,
    {
        assert(s@.skip(i as int).drop_first() =~= s@.skip(i + 1));
        i = i + 1;
    }
    let ghost rest = s@.skip(i as int);
    assert(trim_start(s@) == rest);
    let mut j: usize = n;
    assert(rest.take(n - i) =~= rest);
    while j > i && chars[j - 1].is_whitespace()
        invariant
            i <= j <= n,
            n == chars.len(),
            chars@ == s@,
            rest == s@.skip(i as int),
            trim_end(rest) == trim_end(rest.take(j - i)),
        decreases j,
    {
        assert(rest.take(j - i).drop_last() =~= rest.take(j - i - 1));
        j = j - 1;
    }
    assert(rest.take(j - i) =~= s@.subrange(i as int, j as int));
    s.substring_char(i, j)
}

} // verus!
