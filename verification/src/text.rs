//! Substring search on text, character by character.

use vstd::prelude::*;

verus! {

/// `needle` stands in `haystack` as a contiguous run that starts at index `k`.
pub open spec fn occurs_at(needle: Seq<char>, haystack: Seq<char>, k: int) -> bool {
    &&& 0 <= k
    &&& k + needle.len() <= haystack.len()
    &&& haystack.subrange(k, k + needle.len()) == needle
}

/// `needle` stands somewhere in `haystack` as a contiguous run.
pub open spec fn occurs_in(needle: Seq<char>, haystack: Seq<char>) -> bool {
    exists|k: int| occurs_at(needle, haystack, k)
}

/// The characters of a string, in order.
pub fn chars_of(text: &str) -> (chars: Vec<char>)
    ensures
        chars@ == text@,
{
    let mut chars: Vec<char> = Vec::new();
    for c in it: text.chars()
        invariant
            it.seq() == text@,
            chars@ == it.seq().take(it.index() as int),
    {
        chars.push(c);
    }
    chars
}

/// Whether `needle` stands in `haystack` at index `k`.
fn matches_at(needle: &Vec<char>, haystack: &Vec<char>, k: usize) -> (matched: bool)
    requires
        k + needle@.len() <= haystack@.len(),
    ensures
        matched == occurs_at(needle@, haystack@, k as int),
{
    let mut j: usize = 0;
    while j < needle.len()
        invariant
            j <= needle@.len(),
            k + needle@.len() <= haystack@.len() == haystack.len(),
            forall|t: int| 0 <= t < j ==> haystack@[k + t] == needle@[t],
        decreases needle@.len() - j,
    {
        if haystack[k + j] != needle[j] {
            assert(haystack@.subrange(k as int, k + needle@.len())[j as int] != needle@[j as int]);
            return false;
        }
        j += 1;
    }
    assert(haystack@.subrange(k as int, k + needle@.len()) =~= needle@);
    true
}

/// Whether `needle` stands somewhere in `haystack` as a contiguous run of
/// characters. The empty needle stands in every haystack.
pub fn contains_chars(haystack: &Vec<char>, needle: &Vec<char>) -> (found: bool)
    ensures
        found == occurs_in(needle@, haystack@),
{
    if needle.len() > haystack.len() {
        return false;
    }
    let last: usize = haystack.len() - needle.len();
    let mut k: usize = 0;
    while k <= last
        invariant
            last == haystack@.len() - needle@.len(),
            forall|t: int| 0 <= t < k ==> !occurs_at(needle@, haystack@, t),
        decreases last - k + 1,
    {
        if matches_at(needle, haystack, k) {
            return true;
        }
        if k == last {
            return false;
        }
        k += 1;
    }
    false
}

/// The empty text stands in every text.
pub proof fn empty_occurs_everywhere(haystack: Seq<char>)
    ensures
        occurs_in(Seq::<char>::empty(), haystack),
{
    assert(haystack.subrange(0, 0) =~= Seq::<char>::empty());
    assert(occurs_at(Seq::<char>::empty(), haystack, 0));
}

} // verus!
