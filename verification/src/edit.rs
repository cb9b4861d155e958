//! Rewriting primitives: removing and replacing characters, trimming
//! repeated markers, splitting on separators, joining fragments, and
//! rendering numbers — each as a spec function with a verified mirror.

use vstd::prelude::*;
use crate::search::{find_char_s, find_sub_s, lemma_find_char, lemma_find_sub, match_at,
    find_char_vec, find_sub_vec, match_at_vec};
use crate::text::{starts_with_s, subvec, push_all};

verus! {

/// Dropping `i` then one more character is dropping `i + 1`.
pub proof fn lemma_skip_step(s: Seq<char>, i: int)
    requires
        0 <= i < s.len(),
    ensures
        s.skip(i).len() == s.len() - i,
        s.skip(i)[0] == s[i],
        s.skip(i).skip(1) == s.skip(i + 1),
{
    assert(s.skip(i).skip(1) =~= s.skip(i + 1));
}

/// Dropping `i` then `k` characters is dropping `i + k`.
pub proof fn lemma_skip_skip(s: Seq<char>, i: int, k: int)
    requires
        0 <= i,
        0 <= k,
        i + k <= s.len(),
    ensures
        s.skip(i).skip(k) == s.skip(i + k),
{
    assert(s.skip(i).skip(k) =~= s.skip(i + k));
}

/// `s` with every occurrence of `c` removed.
pub open spec fn remove_char_s(s: Seq<char>, c: char) -> Seq<char>
    decreases s.len(),
{
    if s.len() == 0 {
        s
    } else if s[0] == c {
        remove_char_s(s.skip(1), c)
    } else {
        seq![s[0]] + remove_char_s(s.skip(1), c)
    }
}

/// `v` with every occurrence of `c` removed.
pub fn remove_char_vec(v: &Vec<char>, c: char) -> (r: Vec<char>)
    ensures
        r@ == remove_char_s(v@, c),
{
    let n = v.len();
    let mut out: Vec<char> = Vec::new();
    let mut i: usize = 0;
    assert(v@.skip(0) =~= v@);
    assert(out@ + remove_char_s(v@, c) =~= remove_char_s(v@, c));
    while i < n
        invariant
            n == v@.len(),
            i <= n,
            out@ + remove_char_s(v@.skip(i as int), c) == remove_char_s(v@, c),
        decreases n - i,
    {
        let ghost pre = out@;
        let ghost rest = v@.skip(i as int);
        proof {
            lemma_skip_step(v@, i as int);
        }
        if v[i] != c {
            out.push(v[i]);
            proof {
                assert(remove_char_s(rest, c) == seq![v@[i as int]] + remove_char_s(
                    v@.skip(i as int + 1),
                    c,
                ));
                assert(pre + remove_char_s(rest, c) =~= out@ + remove_char_s(
                    v@.skip(i as int + 1),
                    c,
                ));
            }
        }
        i = i + 1;
    }
    proof {
        assert(v@.skip(n as int) =~= Seq::<char>::empty());
        assert(out@ + remove_char_s(v@.skip(n as int), c) =~= out@);
    }
    out
}

/// `s` with every occurrence of the pattern `p` replaced by `q`,
/// scanning left to right without revisiting replaced text.
pub open spec fn replace_s(s: Seq<char>, p: Seq<char>, q: Seq<char>) -> Seq<char>
    decreases s.len(),
{
    if p.len() == 0 || s.len() == 0 {
        s
    } else if starts_with_s(s, p) {
        q + replace_s(s.skip(p.len() as int), p, q)
    } else {
        seq![s[0]] + replace_s(s.skip(1), p, q)
    }
}

/// `v` with every occurrence of the pattern `p` replaced by `q`.
pub fn replace_vec(v: &Vec<char>, p: &Vec<char>, q: &Vec<char>) -> (r: Vec<char>)
    requires
        p@.len() > 0,
    ensures
        r@ == replace_s(v@, p@, q@),
{
    let n = v.len();
    let mut out: Vec<char> = Vec::new();
    let mut i: usize = 0;
    assert(v@.skip(0) =~= v@);
    assert(out@ + replace_s(v@, p@, q@) =~= replace_s(v@, p@, q@));
    while i < n
        invariant
            n == v@.len(),
            p@.len() > 0,
            i <= n,
            out@ + replace_s(v@.skip(i as int), p@, q@) == replace_s(v@, p@, q@),
        decreases n - i,
    {
        let ghost pre = out@;
        let ghost rest = v@.skip(i as int);
        proof {
            lemma_skip_step(v@, i as int);
        }
        if p.len() <= n - i && match_at_vec(v, p, i) {
            proof {
                assert(starts_with_s(rest, p@)) by {
                    assert(forall|k: int| 0 <= k < p@.len() ==> rest[k] == v@[i + k]);
                }
                lemma_skip_skip(v@, i as int, p@.len() as int);
                assert(replace_s(rest, p@, q@) == q@ + replace_s(
                    v@.skip(i + p@.len()),
                    p@,
                    q@,
                ));
            }
            push_all(&mut out, q);
            i = i + p.len();
            proof {
                assert(pre + (q@ + replace_s(v@.skip(i as int), p@, q@)) =~= out@ + replace_s(
                    v@.skip(i as int),
                    p@,
                    q@,
                ));
            }
        } else {
            proof {
                assert(!starts_with_s(rest, p@)) by {
                    if starts_with_s(rest, p@) {
                        assert(p@.len() <= n - i);
                        assert(match_at(v@, p@, i as int)) by {
                            assert(forall|k: int| 0 <= k < p@.len() ==> v@[i + k] == rest[k]);
                        }
                    }
                }
                assert(replace_s(rest, p@, q@) == seq![v@[i as int]] + replace_s(
                    v@.skip(i as int + 1),
                    p@,
                    q@,
                ));
            }
            out.push(v[i]);
            i = i + 1;
            proof {
                assert(pre + (seq![v@[i - 1]] + replace_s(v@.skip(i as int), p@, q@)) =~= out@
                    + replace_s(v@.skip(i as int), p@, q@));
            }
        }
    }
    proof {
        assert(v@.skip(n as int) =~= Seq::<char>::empty());
        assert(out@ + replace_s(v@.skip(n as int), p@, q@) =~= out@);
    }
    out
}

/// `s` without leading characters drawn from `{c1, c2}`.
pub open spec fn trim_set_start_s(s: Seq<char>, c1: char, c2: char) -> Seq<char>
    decreases s.len(),
{
    if s.len() > 0 && (s[0] == c1 || s[0] == c2) {
        trim_set_start_s(s.skip(1), c1, c2)
    } else {
        s
    }
}

/// `s` without trailing characters drawn from `{c1, c2}`.
pub open spec fn trim_set_end_s(s: Seq<char>, c1: char, c2: char) -> Seq<char>
    decreases s.len(),
{
    if s.len() > 0 && (s[s.len() - 1] == c1 || s[s.len() - 1] == c2) {
        trim_set_end_s(s.take(s.len() - 1), c1, c2)
    } else {
        s
    }
}

/// `s` without leading or trailing characters drawn from `{c1, c2}`.
pub open spec fn trim_set_s(s: Seq<char>, c1: char, c2: char) -> Seq<char> {
    trim_set_end_s(trim_set_start_s(s, c1, c2), c1, c2)
}

/// When the first `a` characters are in the set and the next one is not,
/// trimming the start drops exactly those `a` characters.
pub proof fn lemma_trim_set_start_skip(s: Seq<char>, c1: char, c2: char, a: int)
    requires
        0 <= a <= s.len(),
        forall|j: int| 0 <= j < a ==> s[j] == c1 || s[j] == c2,
        a < s.len() ==> !(s[a] == c1 || s[a] == c2),
    ensures
        trim_set_start_s(s, c1, c2) == s.skip(a),
    decreases a,
{
    if a == 0 {
        assert(s.skip(0) =~= s);
    } else {
        lemma_trim_set_start_skip(s.skip(1), c1, c2, a - 1);
        assert(s.skip(1).skip(a - 1) =~= s.skip(a));
    }
}

/// When the characters from `b` on are in the set and the one before `b`
/// is not, trimming the end keeps exactly the first `b` characters.
pub proof fn lemma_trim_set_end_take(s: Seq<char>, c1: char, c2: char, b: int)
    requires
        0 <= b <= s.len(),
        forall|j: int| b <= j < s.len() ==> s[j] == c1 || s[j] == c2,
        b > 0 ==> !(s[b - 1] == c1 || s[b - 1] == c2),
    ensures
        trim_set_end_s(s, c1, c2) == s.take(b),
    decreases s.len(),
{
    if b == s.len() {
        assert(s.take(b) =~= s);
    } else {
        lemma_trim_set_end_take(s.take(s.len() - 1), c1, c2, b);
        assert(s.take(s.len() - 1).take(b) =~= s.take(b));
    }
}

/// `v` without leading or trailing characters drawn from `{c1, c2}`.
pub fn trim_set_vec(v: &Vec<char>, c1: char, c2: char) -> (r: Vec<char>)
    ensures
        r@ == trim_set_s(v@, c1, c2),
{
    let n = v.len();
    let mut a: usize = 0;
    while a < n && (v[a] == c1 || v[a] == c2)
        invariant
            n == v@.len(),
            a <= n,
            forall|j: int| 0 <= j < a ==> v@[j] == c1 || v@[j] == c2,
        decreases n - a,
    {
        a = a + 1;
    }
    proof {
        lemma_trim_set_start_skip(v@, c1, c2, a as int);
    }
    let mut b: usize = n;
    while b > a && (v[b - 1] == c1 || v[b - 1] == c2)
        invariant
            n == v@.len(),
            a <= b <= n,
            forall|j: int| b <= j < n ==> v@[j] == c1 || v@[j] == c2,
        decreases b,
    {
        b = b - 1;
    }
    proof {
        let t = v@.skip(a as int);
        assert forall|j: int| b - a <= j < t.len() implies t[j] == c1 || t[j] == c2 by {
            assert(t[j] == v@[a + j]);
        }
        if b > a {
            assert(t[b - a - 1] == v@[b - 1]);
        }
        lemma_trim_set_end_take(t, c1, c2, b - a);
        assert(t.take(b - a) =~= v@.subrange(a as int, b as int));
    }
    subvec(v, a, b)
}

/// `v` without leading occurrences of `c`.
pub fn trim_start_matches_vec(v: &Vec<char>, c: char) -> (r: Vec<char>)
    ensures
        r@ == trim_set_start_s(v@, c, c),
{
    let n = v.len();
    let mut a: usize = 0;
    while a < n && v[a] == c
        invariant
            n == v@.len(),
            a <= n,
            forall|j: int| 0 <= j < a ==> v@[j] == c,
        decreases n - a,
    {
        a = a + 1;
    }
    proof {
        lemma_trim_set_start_skip(v@, c, c, a as int);
    }
    subvec(v, a, n)
}

/// `v` without trailing occurrences of `c`.
pub fn trim_end_matches_vec(v: &Vec<char>, c: char) -> (r: Vec<char>)
    ensures
        r@ == trim_set_end_s(v@, c, c),
{
    let n = v.len();
    let mut b: usize = n;
    while b > 0 && v[b - 1] == c
        invariant
            n == v@.len(),
            b <= n,
            forall|j: int| b <= j < n ==> v@[j] == c,
        decreases b,
    {
        b = b - 1;
    }
    proof {
        lemma_trim_set_end_take(v@, c, c, b as int);
        assert(v@.take(b as int) =~= v@.subrange(0, b as int));
    }
    subvec(v, 0, b)
}

/// `s` without trailing occurrences of the pattern `p`.
pub open spec fn trim_end_matches_sub_s(s: Seq<char>, p: Seq<char>) -> Seq<char>
    decreases s.len(),
{
    if p.len() > 0 && crate::text::ends_with_s(s, p) {
        trim_end_matches_sub_s(s.take(s.len() - p.len()), p)
    } else {
        s
    }
}

/// `v` without trailing occurrences of the pattern `p`.
pub fn trim_end_matches_sub_vec(v: &Vec<char>, p: &Vec<char>) -> (r: Vec<char>)
    ensures
        r@ == trim_end_matches_sub_s(v@, p@),
    decreases v@.len(),
{
    if p.len() > 0 && crate::text::ends_with_vec(v, p) {
        let w = subvec(v, 0, v.len() - p.len());
        assert(w@ =~= v@.take(v@.len() - p@.len()));
        trim_end_matches_sub_vec(&w, p)
    } else {
        subvec(v, 0, v.len())
    }
}

/// The pieces of `s` between occurrences of the separator `c`.
pub open spec fn split_char_s(s: Seq<char>, c: char) -> Seq<Seq<char>>
    decreases s.len(),
    via split_char_s_decreases
{
    match find_char_s(s, c) {
        None => seq![s],
        Some(i) => seq![s.subrange(0, i)] + split_char_s(s.skip(i + 1), c),
    }
}

#[via_fn]
proof fn split_char_s_decreases(s: Seq<char>, c: char) {
    lemma_find_char(s, c);
}

/// The pieces of `v` between occurrences of the separator `c`.
pub fn split_char_vec(v: &Vec<char>, c: char) -> (r: Vec<Vec<char>>)
    ensures
        r@.len() == split_char_s(v@, c).len(),
        forall|i: int| 0 <= i < r@.len() ==> r@[i]@ == split_char_s(v@, c)[i],
    decreases v@.len(),
{
    let n = v.len();
    match find_char_vec(v, c) {
        None => {
            let mut r: Vec<Vec<char>> = Vec::new();
            r.push(subvec(v, 0, n));
            assert(v@.subrange(0, n as int) =~= v@);
            r
        },
        Some(i) => {
            proof {
                lemma_find_char(v@, c);
            }
            let head = subvec(v, 0, i);
            let tail = subvec(v, i + 1, n);
            assert(tail@ =~= v@.skip(i + 1));
            let mut r: Vec<Vec<char>> = Vec::new();
            r.push(head);
            let mut rest = split_char_vec(&tail, c);
            r.append(&mut rest);
            r
        },
    }
}

/// The pieces of `s` between occurrences of the pattern `p`.
pub open spec fn split_sub_s(s: Seq<char>, p: Seq<char>) -> Seq<Seq<char>>
    decreases s.len(),
    via split_sub_s_decreases
{
    if p.len() == 0 {
        seq![s]
    } else {
        match find_sub_s(s, p) {
            None => seq![s],
            Some(i) => seq![s.subrange(0, i)] + split_sub_s(s.skip(i + p.len()), p),
        }
    }
}

#[via_fn]
proof fn split_sub_s_decreases(s: Seq<char>, p: Seq<char>) {
    lemma_find_sub(s, p);
}

/// The pieces of `v` between occurrences of the pattern `p`.
pub fn split_sub_vec(v: &Vec<char>, p: &Vec<char>) -> (r: Vec<Vec<char>>)
    requires
        p@.len() > 0,
    ensures
        r@.len() == split_sub_s(v@, p@).len(),
        forall|i: int| 0 <= i < r@.len() ==> r@[i]@ == split_sub_s(v@, p@)[i],
    decreases v@.len(),
{
    let n = v.len();
    match find_sub_vec(v, p) {
        None => {
            let mut r: Vec<Vec<char>> = Vec::new();
            r.push(subvec(v, 0, n));
            assert(v@.subrange(0, n as int) =~= v@);
            r
        },
        Some(i) => {
            proof {
                lemma_find_sub(v@, p@);
            }
            let head = subvec(v, 0, i);
            let tail = subvec(v, i + p.len(), n);
            assert(tail@ =~= v@.skip(i + p@.len()));
            let mut r: Vec<Vec<char>> = Vec::new();
            r.push(head);
            let mut rest = split_sub_vec(&tail, p);
            r.append(&mut rest);
            r
        },
    }
}

/// The character views of a sequence of vectors.
pub open spec fn views_of(ps: Seq<Vec<char>>) -> Seq<Seq<char>> {
    ps.map_values(|p: Vec<char>| p@)
}

/// The pieces joined with the separator `sep` between consecutive pieces.
pub open spec fn join_s(parts: Seq<Seq<char>>, sep: Seq<char>) -> Seq<char>
    decreases parts.len(),
{
    if parts.len() == 0 {
        Seq::empty()
    } else if parts.len() == 1 {
        parts[0]
    } else {
        parts[0] + sep + join_s(parts.skip(1), sep)
    }
}

fn join_from(parts: &Vec<Vec<char>>, i: usize, sep: &Vec<char>) -> (r: Vec<char>)
    requires
        i <= parts@.len(),
    ensures
        r@ == join_s(views_of(parts@).skip(i as int), sep@),
    decreases parts@.len() - i,
{
    let n = parts.len();
    let ghost vs = views_of(parts@);
    if i == n {
        assert(vs.skip(i as int).len() == 0);
        Vec::new()
    } else if i == n - 1 {
        assert(vs.skip(i as int).len() == 1);
        assert(vs.skip(i as int)[0] == parts@[i as int]@);
        subvec(&parts[i], 0, parts[i].len())
    } else {
        let mut r = subvec(&parts[i], 0, parts[i].len());
        assert(r@ =~= parts@[i as int]@);
        push_all(&mut r, sep);
        let rest = join_from(parts, i + 1, sep);
        push_all(&mut r, &rest);
        proof {
            assert(vs.skip(i as int)[0] == parts@[i as int]@);
            assert(vs.skip(i as int).skip(1) =~= vs.skip(i as int + 1));
            assert(vs.skip(i as int).len() >= 2);
            assert(r@ =~= vs.skip(i as int)[0] + sep@ + join_s(vs.skip(i as int).skip(1), sep@));
        }
        r
    }
}

/// The pieces of `parts` joined with the separator `sep`.
pub fn join_vec(parts: &Vec<Vec<char>>, sep: &Vec<char>) -> (r: Vec<char>)
    ensures
        r@ == join_s(views_of(parts@), sep@),
{
    let r = join_from(parts, 0, sep);
    assert(views_of(parts@).skip(0) =~= views_of(parts@));
    r
}

/// The decimal digit character for `d`.
pub open spec fn digit_char_s(d: nat) -> char {
    if d == 0 {
        '0'
    } else if d == 1 {
        '1'
    } else if d == 2 {
        '2'
    } else if d == 3 {
        '3'
    } else if d == 4 {
        '4'
    } else if d == 5 {
        '5'
    } else if d == 6 {
        '6'
    } else if d == 7 {
        '7'
    } else if d == 8 {
        '8'
    } else {
        '9'
    }
}

/// The decimal rendering of `n`, most significant digit first.
pub open spec fn dec_str_s(n: nat) -> Seq<char>
    decreases n,
{
    if n < 10 {
        seq![digit_char_s(n)]
    } else {
        dec_str_s(n / 10) + seq![digit_char_s(n % 10)]
    }
}

fn digit_char(d: usize) -> (r: char)
    requires
        d < 10,
    ensures
        r == digit_char_s(d as nat),
{
    if d == 0 {
        '0'
    } else if d == 1 {
        '1'
    } else if d == 2 {
        '2'
    } else if d == 3 {
        '3'
    } else if d == 4 {
        '4'
    } else if d == 5 {
        '5'
    } else if d == 6 {
        '6'
    } else if d == 7 {
        '7'
    } else if d == 8 {
        '8'
    } else {
        '9'
    }
}

/// The decimal rendering of `n`, most significant digit first.
pub fn dec_vec(n: usize) -> (r: Vec<char>)
    ensures
        r@ == dec_str_s(n as nat),
    decreases n,
{
    if n < 10 {
        let mut r: Vec<char> = Vec::new();
        r.push(digit_char(n));
        assert(r@ =~= seq![digit_char_s(n as nat)]);
        r
    } else {
        let mut r = dec_vec(n / 10);
        r.push(digit_char(n % 10));
        assert(r@ =~= dec_str_s(n as nat / 10) + seq![digit_char_s(n as nat % 10)]);
        r
    }
}

} // verus!
