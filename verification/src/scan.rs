//! Searching inside character sequences.
use vstd::prelude::*;
use crate::text::occurs_at;

verus! {

/// First position `j >= i` at which `pat` occurs in `s` (`str::find` on the
/// suffix starting at `i`, with the position counted from the start of `s`).
pub open spec fn find_from(s: Seq<char>, pat: Seq<char>, i: int) -> Option<int>
    decreases s.len() + 1 - i,
{
    if i < 0 || i + pat.len() > s.len() {
        None
    } else if occurs_at(s, pat, i) {
        Some(i)
    } else {
        find_from(s, pat, i + 1)
    }
}

pub proof fn lemma_find_from_bounds(s: Seq<char>, pat: Seq<char>, i: int)
    ensures
        find_from(s, pat, i) matches Some(j) ==> i <= j && j + pat.len() <= s.len() && occurs_at(
            s,
            pat,
            j,
        ),
        find_from(s, pat, i) matches Some(j) ==> forall|k: int|
            i <= k < j ==> !occurs_at(s, pat, k),
        find_from(s, pat, i) is None && 0 <= i ==> forall|k: int|
            i <= k ==> !occurs_at(s, pat, k),
    decreases s.len() + 1 - i,
{
    if i < 0 || i + pat.len() > s.len() {
    } else if occurs_at(s, pat, i) {
    } else {
        lemma_find_from_bounds(s, pat, i + 1);
    }
}

/// Whether `pat` occurs in `s` at position `i`.
pub fn matches_at(s: &Vec<char>, pat: &Vec<char>, i: usize) -> (b: bool)
    ensures
        b == occurs_at(s@, pat@, i as int),
{
    if i > s.len() || pat.len() > s.len() - i {
        return false;
    }
    let mut k: usize = 0;
    while k < pat.len()
        invariant
            i + pat.len() <= s.len(),
            k <= pat.len(),
            forall|m: int| 0 <= m < k ==> s@[i + m] == pat@[m],
        decreases pat.len() - k,
    {
        if s[i + k] != pat[k] {
            assert(s@.subrange(i as int, i + pat.len())[k as int] != pat@[k as int]);
            return false;
        }
        k = k + 1;
    }
    assert(s@.subrange(i as int, i + pat.len()) =~= pat@);
    true
}

/// `find_from` on vectors.
pub fn find_seq_from(s: &Vec<char>, pat: &Vec<char>, i: usize) -> (r: Option<usize>)
    ensures
        r matches Some(j) ==> find_from(s@, pat@, i as int) == Some(j as int),
        r is None ==> find_from(s@, pat@, i as int) is None,
{
    if pat.len() == 0 {
        if i <= s.len() {
            assert(s@.subrange(i as int, i as int) =~= pat@);
            return Some(i);
        }
        return None;
    }
    let mut j = i;
    while j < s.len() && pat.len() <= s.len() - j
        invariant
            i <= j,
            pat.len() > 0,
            find_from(s@, pat@, i as int) == find_from(s@, pat@, j as int),
        decreases s.len() + 1 - j,
    {
        if matches_at(s, pat, j) {
            return Some(j);
        }
        j = j + 1;
    }
    None
}

/// First position `j >= i` holding the character `c`.
pub fn find_char_from(s: &Vec<char>, c: char, i: usize) -> (r: Option<usize>)
    ensures
        r matches Some(j) ==> find_from(s@, seq![c], i as int) == Some(j as int),
        r is None ==> find_from(s@, seq![c], i as int) is None,
{
    let mut j = i;
    while j < s.len()
        invariant
            i <= j,
            find_from(s@, seq![c], i as int) == find_from(s@, seq![c], j as int),
        decreases s.len() - j,
    {
        if s[j] == c {
            assert(s@.subrange(j as int, j + 1) =~= seq![c]);
            return Some(j);
        }
        assert(s@.subrange(j as int, j + 1)[0] != c);
        j = j + 1;
    }
    None
}

} // verus!
