//! Text operations shared by the fetcher and the judge.
use vstd::prelude::*;

verus! {

/// Whether a character has the Unicode `White_Space` property.
pub open spec fn is_white_space(c: char) -> bool {
    let u = c as u32;
    (0x09 <= u && u <= 0x0d) || u == 0x20 || u == 0x85 || u == 0xa0 || u == 0x1680
        || (0x2000 <= u && u <= 0x200a) || u == 0x2028 || u == 0x2029 || u == 0x202f
        || u == 0x205f || u == 0x3000
}

/// Every character is whitespace.
pub open spec fn all_white_space(s: Seq<char>) -> bool {
    forall|i: int| 0 <= i < s.len() ==> is_white_space(#[trigger] s[i])
}

/// The text without its leading whitespace.
pub open spec fn trim_front(s: Seq<char>) -> Seq<char>
    decreases s.len(),
{
    if s.len() > 0 && is_white_space(s[0]) {
        trim_front(s.drop_first())
    } else {
        s
    }
}

/// The text without its trailing whitespace.
pub open spec fn trim_back(s: Seq<char>) -> Seq<char>
    decreases s.len(),
{
    if s.len() > 0 && is_white_space(s.last()) {
        trim_back(s.drop_last())
    } else {
        s
    }
}

/// The text with leading and trailing whitespace removed.
pub open spec fn trimmed(s: Seq<char>) -> Seq<char> {
    trim_back(trim_front(s))
}

/// Whether a character has the Unicode `Alphabetic` property.
pub uninterp spec fn alphabetic(c: char) -> bool;

/// Relies on `str::trim`: leading and trailing characters with the Unicode
/// `White_Space` property removed.
#[verifier::external_body]
pub(crate) fn trim_text(s: &str) -> (r: String)
    ensures
        r@ == trimmed(s@),
{
    s.trim().to_string()
}

/// Relies on `char::is_alphabetic`.
#[verifier::external_body]
pub(crate) fn is_letter(c: char) -> (r: bool)
    ensures
        r == alphabetic(c),
{
    c.is_alphabetic()
}

/// Exact, character-for-character equality of two texts.
pub fn same_text(a: &String, b: &String) -> (r: bool)
    ensures
        r == (a@ == b@),
{
    a.eq(b)
}

/// Whitespace in front of a text is removed with the text's own.
pub proof fn lemma_trim_front_skips(w: Seq<char>, x: Seq<char>)
    requires
        all_white_space(w),
    ensures
        trim_front(w + x) == trim_front(x),
    decreases w.len(),
{
    if w.len() == 0 {
        assert(w + x =~= x);
    } else {
        assert((w + x)[0] == w[0]);
        assert((w + x).drop_first() =~= w.drop_first() + x);
        lemma_trim_front_skips(w.drop_first(), x);
    }
}

/// Whitespace after a text is removed with the text's own.
pub proof fn lemma_trim_back_skips(x: Seq<char>, w: Seq<char>)
    requires
        all_white_space(w),
    ensures
        trim_back(x + w) == trim_back(x),
    decreases w.len(),
{
    if w.len() == 0 {
        assert(x + w =~= x);
    } else {
        assert((x + w).last() == w.last());
        assert((x + w).drop_last() =~= x + w.drop_last());
        lemma_trim_back_skips(x, w.drop_last());
    }
}

proof fn lemma_trim_front_then_back(a: Seq<char>, w: Seq<char>)
    requires
        all_white_space(w),
    ensures
        trim_back(trim_front(a + w)) == trim_back(trim_front(a)),
    decreases a.len(),
{
    if a.len() == 0 {
        assert(a + w =~= w);
        lemma_trim_front_skips(w, Seq::empty());
        assert(w + Seq::<char>::empty() =~= w);
    } else if is_white_space(a[0]) {
        assert((a + w)[0] == a[0]);
        assert((a + w).drop_first() =~= a.drop_first() + w);
        lemma_trim_front_then_back(a.drop_first(), w);
    } else {
        assert((a + w)[0] == a[0]);
        lemma_trim_back_skips(a, w);
    }
}

/// Whitespace added around a text does not change what it trims to.
pub proof fn lemma_trimmed_ignores_outer_space(before: Seq<char>, s: Seq<char>, after: Seq<char>)
    requires
        all_white_space(before),
        all_white_space(after),
    ensures
        trimmed(before + s + after) == trimmed(s),
{
    assert(before + s + after =~= before + (s + after));
    lemma_trim_front_skips(before, s + after);
    lemma_trim_front_then_back(s, after);
}

} // verus!
