//! The condition parser: one comma-separated constraint clause of a
//! point-on-object construction becomes an English fragment.

use vstd::prelude::*;
use crate::edit::{split_char_s, split_char_vec};
use crate::search::{contains_char_s, find_char_s, find_char_vec, lemma_find_char,
    contains_char_vec};
use crate::shapes::{regular_polygon_s, regular_polygon_vec};
use crate::tables::{property_name_s, property_name, relationship_name_s, relationship_name};
use crate::text::{trim_s, trim_vec, starts_with_s, starts_with_vec, lit, subvec, push_all,
    vec_eq_str};

verus! {

/// The English fragment for one constraint clause. A regular-polygon
/// spec renders as its polygon phrase; a bracketed area assignment as an
/// area fragment; star notation as a property or relationship assertion,
/// with an unknown code echoed verbatim; anything else passes through
/// unchanged.
pub open spec fn condition_s(c0: Seq<char>) -> Seq<char> {
    let c = trim_s(c0);
    if starts_with_s(c, "R:"@) {
        regular_polygon_s(c.skip(2))
    } else if contains_char_s(c, '[') && contains_char_s(c, ']') && contains_char_s(c, '=') {
        match (find_char_s(c, '['), find_char_s(c, ']')) {
            (Some(a), Some(b)) => {
                if a < b && b + 2 <= c.len() {
                    "the area of "@ + c.subrange(a + 1, b) + " is "@ + c.skip(b + 2)
                } else {
                    c
                }
            },
            _ => c,
        }
    } else if contains_char_s(c, '*') {
        let parts = split_char_s(c, '*');
        if parts.len() == 2 {
            if parts[1] == "+"@ {
                parts[0] + " goes clockwise"@
            } else if parts[1] == "-"@ {
                parts[0] + " goes counterclockwise"@
            } else {
                match property_name_s(parts[1]) {
                    Some(p) => parts[0] + " is "@ + p,
                    None => match relationship_name_s(parts[1]) {
                        Some(p) => parts[0] + " is "@ + p,
                        None => parts[0] + " is "@ + parts[1],
                    },
                }
            }
        } else {
            c
        }
    } else {
        c
    }
}

/// Renders one constraint clause.
pub fn condition_vec(c0: &Vec<char>) -> (r: Vec<char>)
    ensures
        r@ == condition_s(c0@),
{
    let c = trim_vec(c0);
    let n = c.len();
    if starts_with_vec(&c, &lit("R:")) {
        proof {
            reveal_strlit("R:");
        }
        let body = subvec(&c, 2, n);
        regular_polygon_vec(&body)
    } else if contains_char_vec(&c, '[') && contains_char_vec(&c, ']') && contains_char_vec(
        &c,
        '=',
    ) {
        let fa = find_char_vec(&c, '[');
        let fb = find_char_vec(&c, ']');
        proof {
            lemma_find_char(c@, '[');
            lemma_find_char(c@, ']');
        }
        match (fa, fb) {
            (Some(a), Some(b)) => {
                if a < b && b <= n - 2 {
                    let mut out = lit("the area of ");
                    let obj = subvec(&c, a + 1, b);
                    push_all(&mut out, &obj);
                    let mid = lit(" is ");
                    push_all(&mut out, &mid);
                    let val = subvec(&c, b + 2, n);
                    push_all(&mut out, &val);
                    out
                } else {
                    c
                }
            },
            _ => c,
        }
    } else if contains_char_vec(&c, '*') {
        let parts = split_char_vec(&c, '*');
        if parts.len() == 2 {
            if vec_eq_str(&parts[1], "+") {
                let mut out = subvec(&parts[0], 0, parts[0].len());
                let tail = lit(" goes clockwise");
                push_all(&mut out, &tail);
                out
            } else if vec_eq_str(&parts[1], "-") {
                let mut out = subvec(&parts[0], 0, parts[0].len());
                let tail = lit(" goes counterclockwise");
                push_all(&mut out, &tail);
                out
            } else {
                let mut out = subvec(&parts[0], 0, parts[0].len());
                let mid = lit(" is ");
                push_all(&mut out, &mid);
                match property_name(&parts[1]) {
                    Some(p) => {
                        push_all(&mut out, &p);
                    },
                    None => match relationship_name(&parts[1]) {
                        Some(p) => {
                            push_all(&mut out, &p);
                        },
                        None => {
                            push_all(&mut out, &parts[1]);
                        },
                    },
                }
                out
            }
        } else {
            c
        }
    } else {
        c
    }
}

/// The fragments for a full comma-separated constraint list, in order.
pub open spec fn conditions_s(conds: Seq<char>) -> Seq<Seq<char>> {
    split_char_s(conds, ',').map_values(|p: Seq<char>| condition_s(p))
}

/// Renders every clause of a comma-separated constraint list.
pub fn conditions_vec(conds: &Vec<char>) -> (r: Vec<Vec<char>>)
    ensures
        r@.len() == conditions_s(conds@).len(),
        forall|i: int| 0 <= i < r@.len() ==> r@[i]@ == conditions_s(conds@)[i],
{
    let pieces = split_char_vec(conds, ',');
    let m = pieces.len();
    let mut out: Vec<Vec<char>> = Vec::new();
    let mut i: usize = 0;
    while i < m
        invariant
            m == pieces@.len(),
            m == split_char_s(conds@, ',').len(),
            forall|j: int| 0 <= j < m ==> pieces@[j]@ == split_char_s(conds@, ',')[j],
            i <= m,
            out@.len() == i,
            forall|j: int| 0 <= j < i ==> out@[j]@ == conditions_s(conds@)[j],
        decreases m - i,
    {
        let f = condition_vec(&pieces[i]);
        out.push(f);
        i = i + 1;
    }
    out
}

} // verus!
