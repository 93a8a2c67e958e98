//! Case-insensitive substring matching over monitor identifiers.

use vstd::prelude::*;

verus! {

/// The lowercase folding of a character sequence, as `str::to_lowercase`
/// computes it. The folding depends on the characters alone, so it is given
/// a name here rather than a definition.
pub uninterp spec fn lower_of(s: Seq<char>) -> Seq<char>;

/// Relies on `str::to_lowercase`: the returned string is the lowercase
/// folding of the input, a function of the input characters alone.
#[verifier::external_body]
fn lowercase_chars(s: &str) -> (r: Vec<char>)
    ensures
        r@ == lower_of(s@),
{
    s.to_lowercase().chars().collect()
}

/// Whether `needle` occurs as a contiguous subsequence of `hay`.
pub open spec fn is_substring_of(needle: Seq<char>, hay: Seq<char>) -> bool {
    exists|i: int| 0 <= i && i + needle.len() <= hay.len()
        && #[trigger] hay.subrange(i, i + needle.len()) == needle
}

/// Whether `pattern` matches `text` when both are compared without regard
/// to letter case: the folded pattern is a substring of the folded text.
pub open spec fn matches_ignoring_case(pattern: Seq<char>, text: Seq<char>) -> bool {
    is_substring_of(lower_of(pattern), lower_of(text))
}

/// Whether `needle` occurs at position `at` of `hay`.
fn window_eq(hay: &Vec<char>, needle: &Vec<char>, at: usize) -> (r: bool)
    requires
        at + needle@.len() <= hay@.len(),
    ensures
        r == (hay@.subrange(at as int, at + needle@.len()) == needle@),
{
    let ghost win = hay@.subrange(at as int, at + needle@.len());
    let hay_len = hay.len();
    let mut j: usize = 0;
    while j < needle.len()
        invariant
            0 <= j <= needle@.len(),
            at + needle@.len() <= hay@.len(),
            hay@.len() == hay_len,
            win == hay@.subrange(at as int, at + needle@.len()),
            forall|l: int| 0 <= l < j ==> win[l] == needle@[l],
        decreases needle@.len() - j,
    {
        assert(at + j < hay@.len());
        if hay[at + j] != needle[j] {
            assert(win[j as int] != needle@[j as int]);
            return false;
        }
        assert(win[j as int] == needle@[j as int]);
        j = j + 1;
    }
    proof {
        assert(win =~= needle@);
    }
    true
}

/// Linear scan for `needle` inside `hay`.
pub fn contains_chars(hay: &Vec<char>, needle: &Vec<char>) -> (r: bool)
    ensures
        r == is_substring_of(needle@, hay@),
{
    if needle.len() > hay.len() {
        assert(!is_substring_of(needle@, hay@));
        return false;
    }
    if needle.len() == 0 {
        proof {
            let n = needle@.len() as int;
            assert(hay@.subrange(0, 0 + n) =~= needle@);
            assert(is_substring_of(needle@, hay@));
        }
        return true;
    }
    let hay_len = hay.len();
    let last = hay_len - needle.len();
    let mut i: usize = 0;
    while i <= last
        invariant
            0 <= i <= last + 1,
            1 <= needle@.len(),
            hay@.len() == hay_len,
            last == hay@.len() - needle@.len(),
            forall|j: int| 0 <= j < i ==>
                #[trigger] hay@.subrange(j, j + needle@.len()) != needle@,
        decreases last + 1 - i,
    {
        if window_eq(hay, needle, i) {
            return true;
        }
        i = i + 1;
    }
    proof {
        assert forall|j: int| 0 <= j && j + needle@.len() <= hay@.len() implies
            #[trigger] hay@.subrange(j, j + needle@.len()) != needle@ by {
            assert(j < i);
        }
    }
    false
}

/// True iff `pattern` is a case-insensitive substring of `text`.
pub fn contains_ignoring_case(text: &str, pattern: &str) -> (r: bool)
    ensures
        r == matches_ignoring_case(pattern@, text@),
{
    let hay = lowercase_chars(text);
    let needle = lowercase_chars(pattern);
    contains_chars(&hay, &needle)
}

} // verus!
