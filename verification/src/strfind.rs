//! Substring matching over strings, modelled on `Seq<char>` views.
//!
//! `find_first` is the leftmost occurrence of a pattern, `contains_seq` is
//! plain containment, and `ends_with` is suffix matching; each has an
//! executable counterpart proved against it.

use vstd::prelude::*;

verus! {

/// The pattern `pat` occurs in `s` at position `i`.
pub open spec fn match_at(s: Seq<char>, pat: Seq<char>, i: int) -> bool {
    &&& 0 <= i
    &&& i + pat.len() <= s.len()
    &&& s.subrange(i, i + pat.len()) == pat
}

/// The pattern `pat` occurs somewhere in `s`.
pub open spec fn contains_seq(s: Seq<char>, pat: Seq<char>) -> bool {
    exists|i: int| match_at(s, pat, i)
}

/// `pat` is a suffix of `s`.
pub open spec fn ends_with(s: Seq<char>, pat: Seq<char>) -> bool {
    &&& pat.len() <= s.len()
    &&& s.subrange(s.len() - pat.len(), s.len() as int) == pat
}

/// The position of the first occurrence of `pat` in `s` at or after `from`.
pub open spec fn find_from(s: Seq<char>, pat: Seq<char>, from: int) -> Option<int>
    decreases s.len() - from,
{
    if from < 0 || from + pat.len() > s.len() {
        None
    } else if match_at(s, pat, from) {
        Some(from)
    } else if from >= s.len() {
        None
    } else {
        find_from(s, pat, from + 1)
    }
}

/// The position of the first occurrence of `pat` in `s`.
pub open spec fn find_first(s: Seq<char>, pat: Seq<char>) -> Option<int> {
    find_from(s, pat, 0)
}

/// `find_from` returns the first match at or after `from`, and `None`
/// exactly when no match lies there.
pub proof fn lemma_find_from(s: Seq<char>, pat: Seq<char>, from: int)
    requires
        0 <= from,
    ensures
        match find_from(s, pat, from) {
            Some(i) => {
                &&& from <= i
                &&& match_at(s, pat, i)
                &&& forall|k: int| from <= k < i ==> !match_at(s, pat, k)
            },
            None => forall|k: int| from <= k ==> !match_at(s, pat, k),
        },
    decreases s.len() - from + 1,
{
    if from < 0 || from + pat.len() > s.len() {
        assert forall|k: int| from <= k implies !match_at(s, pat, k) by {
            assert(k + pat.len() > s.len());
        }
    } else if match_at(s, pat, from) {
    } else if from >= s.len() {
        assert forall|k: int| from <= k implies !match_at(s, pat, k) by {
            if k > from {
                assert(k + pat.len() > s.len());
            }
        }
    } else {
        lemma_find_from(s, pat, from + 1);
    }
}

/// `find_first` locates the leftmost match; `None` means no match at all.
pub proof fn lemma_find_first(s: Seq<char>, pat: Seq<char>)
    ensures
        match find_first(s, pat) {
            Some(i) => {
                &&& match_at(s, pat, i)
                &&& forall|k: int| 0 <= k < i ==> !match_at(s, pat, k)
            },
            None => !contains_seq(s, pat),
        },
{
    lemma_find_from(s, pat, 0);
    if find_first(s, pat) is None {
        assert forall|i: int| !match_at(s, pat, i) by {
            if 0 <= i {
                assert(!match_at(s, pat, i));
            }
        }
    }
}

/// Whether `pat` occurs in `s` at character position `i`.
fn match_at_exec(s: &str, pat: &str, i: usize) -> (r: bool)
    requires
        i + pat@.len() <= s@.len() <= usize::MAX,
    ensures
        r == match_at(s@, pat@, i as int),
{
    let m = pat.unicode_len();
    let mut j: usize = 0;
    while j < m
        invariant
            m == pat@.len(),
            i + m <= s@.len() <= usize::MAX,
            j <= m,
            forall|k: int| 0 <= k < j ==> s@[i + k] == pat@[k],
        decreases m - j,
    {
        let sc = s.get_char(i + j);
        let pc = pat.get_char(j);
        if sc != pc {
            assert(s@.subrange(i as int, i + m) != pat@) by {
                assert(s@.subrange(i as int, i + m)[j as int] == s@[i + j]);
            }
            return false;
        }
        j += 1;
    }
    assert(s@.subrange(i as int, i + m) =~= pat@);
    true
}

/// The character position of the first occurrence of `pat` in `s`.
pub fn find_sub(s: &str, pat: &str) -> (r: Option<usize>)
    ensures
        match r {
            Some(i) => find_first(s@, pat@) == Some(i as int),
            None => find_first(s@, pat@) is None,
        },
{
    let n = s.unicode_len();
    let m = pat.unicode_len();
    if m > n {
        return None;
    }
    if m == 0 {
        assert(match_at(s@, pat@, 0)) by {
            assert(s@.subrange(0, 0) =~= pat@);
        }
        return Some(0);
    }
    let mut i: usize = 0;
    while i <= n - m
        invariant
            n == s@.len(),
            m == pat@.len(),
            0 < m <= n,
            i <= n - m + 1,
            find_first(s@, pat@) == find_from(s@, pat@, i as int),
        decreases n - m + 1 - i,
    {
        if match_at_exec(s, pat, i) {
            return Some(i);
        }
        i += 1;
    }
    None
}

/// Whether `pat` occurs somewhere in `s`.
pub fn contains_sub(s: &str, pat: &str) -> (r: bool)
    ensures
        r == contains_seq(s@, pat@),
{
    let r = find_sub(s, pat);
    proof {
        lemma_find_first(s@, pat@);
    }
    r.is_some()
}

/// Whether `pat` is a suffix of `s`.
pub fn ends_with_sub(s: &str, pat: &str) -> (r: bool)
    ensures
        r == ends_with(s@, pat@),
{
    let n = s.unicode_len();
    let m = pat.unicode_len();
    if m > n {
        return false;
    }
    match_at_exec(s, pat, n - m)
}

} // verus!
