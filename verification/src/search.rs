//! Finding characters and substrings: spec-level first-occurrence functions,
//! their characterizations, and verified executable searches.

use vstd::prelude::*;
use crate::text::starts_with_s;

verus! {

/// Some character of `s` is `c`.
pub open spec fn contains_char_s(s: Seq<char>, c: char) -> bool {
    exists|j: int| 0 <= j < s.len() && s[j] == c
}

/// The pattern `p` occurs in `s` at position `i`.
pub open spec fn match_at(s: Seq<char>, p: Seq<char>, i: int) -> bool {
    0 <= i && i + p.len() <= s.len() && (forall|k: int| 0 <= k < p.len() ==> s[i + k] == p[k])
}

/// The pattern `p` occurs somewhere in `s`.
pub open spec fn contains_sub_s(s: Seq<char>, p: Seq<char>) -> bool {
    exists|i: int| match_at(s, p, i)
}

/// Position of the first occurrence of the character `c` in `s`.
pub open spec fn find_char_s(s: Seq<char>, c: char) -> Option<int>
    decreases s.len(),
{
    if s.len() == 0 {
        None
    } else if s[0] == c {
        Some(0int)
    } else {
        match find_char_s(s.skip(1), c) {
            None => None,
            Some(i) => Some(i + 1),
        }
    }
}

/// Position of the first occurrence of the pattern `p` in `s`.
pub open spec fn find_sub_s(s: Seq<char>, p: Seq<char>) -> Option<int>
    decreases s.len(),
{
    if starts_with_s(s, p) {
        Some(0int)
    } else if s.len() == 0 {
        None
    } else {
        match find_sub_s(s.skip(1), p) {
            None => None,
            Some(i) => Some(i + 1),
        }
    }
}

/// `find_char_s` returns the first occurrence of `c`, or `None` when there is none.
pub proof fn lemma_find_char(s: Seq<char>, c: char)
    ensures
        match find_char_s(s, c) {
            None => !contains_char_s(s, c),
            Some(i) => 0 <= i < s.len() && s[i] == c && (forall|j: int| 0 <= j < i ==> s[j] != c),
        },
    decreases s.len(),
{
    if s.len() == 0 {
    } else if s[0] == c {
    } else {
        lemma_find_char(s.skip(1), c);
        match find_char_s(s.skip(1), c) {
            None => {
                assert forall|j: int| 0 <= j < s.len() implies s[j] != c by {
                    if j > 0 {
                        assert(s.skip(1)[j - 1] == s[j]);
                    }
                }
            },
            Some(i) => {
                assert(s.skip(1)[i] == s[i + 1]);
                assert forall|j: int| 0 <= j < i + 1 implies s[j] != c by {
                    if j > 0 {
                        assert(s.skip(1)[j - 1] == s[j]);
                    }
                }
            },
        }
    }
}

/// `find_sub_s` returns the first match of `p`, or `None` when there is none.
pub proof fn lemma_find_sub(s: Seq<char>, p: Seq<char>)
    ensures
        match find_sub_s(s, p) {
            None => !contains_sub_s(s, p),
            Some(i) => match_at(s, p, i) && (forall|j: int| 0 <= j < i ==> !match_at(s, p, j)),
        },
    decreases s.len(),
{
    if starts_with_s(s, p) {
    } else if s.len() == 0 {
        assert forall|i: int| !match_at(s, p, i) by {
            if match_at(s, p, i) {
                assert(starts_with_s(s, p));
            }
        }
    } else {
        lemma_find_sub(s.skip(1), p);
        assert forall|i: int| 1 <= i implies match_at(s.skip(1), p, i - 1) == match_at(s, p, i) by {
            if match_at(s.skip(1), p, i - 1) {
                assert forall|k: int| 0 <= k < p.len() implies s[i + k] == p[k] by {
                    assert(s.skip(1)[i - 1 + k] == s[i + k]);
                }
            }
            if match_at(s, p, i) {
                assert forall|k: int| 0 <= k < p.len() implies s.skip(1)[i - 1 + k] == p[k] by {
                    assert(s.skip(1)[i - 1 + k] == s[i + k]);
                }
            }
        }
        match find_sub_s(s.skip(1), p) {
            None => {
                assert forall|i: int| !match_at(s, p, i) by {
                    if match_at(s, p, i) {
                        if i == 0 {
                            assert(starts_with_s(s, p));
                        } else {
                            assert(match_at(s.skip(1), p, i - 1));
                        }
                    }
                }
            },
            Some(i) => {
                assert(match_at(s.skip(1), p, i));
                assert(match_at(s, p, i + 1));
                assert forall|j: int| 0 <= j < i + 1 implies !match_at(s, p, j) by {
                    if match_at(s, p, j) {
                        if j == 0 {
                            assert(starts_with_s(s, p));
                        } else {
                            assert(match_at(s.skip(1), p, j - 1));
                        }
                    }
                }
            },
        }
    }
}

/// Finds the first occurrence of the character `c` in `v`.
pub fn find_char_vec(v: &Vec<char>, c: char) -> (r: Option<usize>)
    ensures
        match r {
            None => find_char_s(v@, c) is None,
            Some(i) => find_char_s(v@, c) == Some(i as int),
        },
{
    let n = v.len();
    let mut i: usize = 0;
    while i < n
        invariant
            n == v@.len(),
            i <= n,
            forall|j: int| 0 <= j < i ==> v@[j] != c,
        decreases n - i,
    {
        if v[i] == c {
            proof {
                lemma_find_char(v@, c);
                assert(contains_char_s(v@, c)) by {
                    assert(v@[i as int] == c);
                }
            }
            return Some(i);
        }
        i = i + 1;
    }
    proof {
        lemma_find_char(v@, c);
    }
    None
}

/// Whether the character `c` occurs in `v`.
pub fn contains_char_vec(v: &Vec<char>, c: char) -> (r: bool)
    ensures
        r == contains_char_s(v@, c),
{
    proof {
        lemma_find_char(v@, c);
    }
    match find_char_vec(v, c) {
        Some(_) => true,
        None => false,
    }
}

/// Whether the pattern `p` occurs in `v` at position `i`.
pub fn match_at_vec(v: &Vec<char>, p: &Vec<char>, i: usize) -> (r: bool)
    requires
        i + p@.len() <= v@.len(),
    ensures
        r == match_at(v@, p@, i as int),
{
    let n = v.len();
    let mut k: usize = 0;
    while k < p.len()
        invariant
            n == v@.len(),
            i + p@.len() <= v@.len(),
            k <= p@.len(),
            forall|j: int| 0 <= j < k ==> v@[i + j] == p@[j],
        decreases p@.len() - k,
    {
        if v[i + k] != p[k] {
            return false;
        }
        k = k + 1;
    }
    true
}

/// Finds the first occurrence of the pattern `p` in `v`.
pub fn find_sub_vec(v: &Vec<char>, p: &Vec<char>) -> (r: Option<usize>)
    ensures
        match r {
            None => find_sub_s(v@, p@) is None,
            Some(i) => find_sub_s(v@, p@) == Some(i as int),
        },
{
    let n = v.len();
    if p.len() > n {
        proof {
            lemma_find_sub(v@, p@);
            assert forall|i: int| !match_at(v@, p@, i) by {}
        }
        return None;
    }
    let last = n - p.len();
    let mut i: usize = 0;
    while i <= last
        invariant
            n == v@.len(),
            p@.len() <= n,
            last == n - p@.len(),
            i <= last + 1,
            forall|j: int| 0 <= j < i ==> !match_at(v@, p@, j),
        decreases last + 1 - i,
    {
        if match_at_vec(v, p, i) {
            proof {
                lemma_find_sub(v@, p@);
                assert(contains_sub_s(v@, p@)) by {
                    assert(match_at(v@, p@, i as int));
                }
            }
            return Some(i);
        }
        i = i + 1;
    }
    proof {
        lemma_find_sub(v@, p@);
        assert forall|j: int| !match_at(v@, p@, j) by {}
    }
    None
}

/// Whether the pattern `p` occurs in `v`.
pub fn contains_sub_vec(v: &Vec<char>, p: &Vec<char>) -> (r: bool)
    ensures
        r == contains_sub_s(v@, p@),
{
    proof {
        lemma_find_sub(v@, p@);
    }
    match find_sub_vec(v, p) {
        Some(_) => true,
        None => false,
    }
}

} // verus!
