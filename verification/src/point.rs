//! Point construction: comma lists, intersections, coordinates, regions,
//! and points on objects with or without constraint clauses.

use vstd::prelude::*;
use crate::conditions::{conditions_s, conditions_vec};
use crate::edit::{join_s, join_vec, views_of};
use crate::search::{contains_char_s, contains_sub_s, find_char_s, find_sub_s, find_char_vec,
    find_sub_vec, lemma_find_char, lemma_find_sub, contains_char_vec, contains_sub_vec};
use crate::text::{lit, subvec, push_all};

verus! {

/// The noun phrase for an object code: a leading `w`, `l` or `c` marks a
/// ray, line or circle; anything else reads as a segment.
pub open spec fn object_desc_s(o: Seq<char>) -> Seq<char> {
    if o.len() > 0 && o[0] == 'w' {
        "ray "@ + o.skip(1)
    } else if o.len() > 0 && o[0] == 'l' {
        "line "@ + o.skip(1)
    } else if o.len() > 0 && o[0] == 'c' {
        "circle "@ + o.skip(1)
    } else {
        "segment "@ + o
    }
}

/// Renders the noun phrase for an object code.
pub fn object_desc_vec(o: &Vec<char>) -> (r: Vec<char>)
    ensures
        r@ == object_desc_s(o@),
{
    let n = o.len();
    if n > 0 && o[0] == 'w' {
        let mut out = lit("ray ");
        let restv = subvec(o, 1, n);
        push_all(&mut out, &restv);
        out
    } else if n > 0 && o[0] == 'l' {
        let mut out = lit("line ");
        let restv = subvec(o, 1, n);
        push_all(&mut out, &restv);
        out
    } else if n > 0 && o[0] == 'c' {
        let mut out = lit("circle ");
        let restv = subvec(o, 1, n);
        push_all(&mut out, &restv);
        out
    } else {
        let mut out = lit("segment ");
        let whole = subvec(o, 0, n);
        push_all(&mut out, &whole);
        out
    }
}

/// The intersection form applies: an `x` occurs after the first equals sign.
pub open spec fn intersection_applies(rest: Seq<char>) -> bool {
    match find_char_s(rest, '=') {
        Some(e) => contains_char_s(rest.skip(e + 1), 'x'),
        None => false,
    }
}

/// The coordinate form applies: an opening brace occurs before a closing one.
pub open spec fn coords_applies(rest: Seq<char>) -> bool {
    match (find_char_s(rest, '{'), find_char_s(rest, '}')) {
        (Some(a), Some(b)) => a < b,
        _ => false,
    }
}

/// The constrained on-object form applies: a dot occurs before the first pipe.
pub open spec fn on_object_cond_applies(rest: Seq<char>) -> bool {
    match find_char_s(rest, '|') {
        Some(p) => find_char_s(rest.subrange(0, p), '.') is Some,
        None => false,
    }
}

/// The English sentence for a point-construction body. The forms are
/// tried in order: a plain comma list of points; an intersection
/// assignment; coordinates in braces; a region after a double dot; a
/// point on an object with constraint clauses; a point on an object; and
/// a bare point.
pub open spec fn point_construction_s(rest: Seq<char>) -> Seq<char> {
    if contains_char_s(rest, ',') && !contains_char_s(rest, '.') && !contains_char_s(rest, '|')
        && !contains_char_s(rest, 'x') {
        "Construct points "@ + rest + "."@
    } else if contains_char_s(rest, 'x') && contains_char_s(rest, '=') && intersection_applies(
        rest,
    ) {
        match find_char_s(rest, '=') {
            Some(e) => {
                let inter = rest.skip(e + 1);
                match find_char_s(inter, 'x') {
                    Some(xp) => "Let point "@ + rest.subrange(0, e)
                        + " be the intersection of "@ + object_desc_s(inter.subrange(0, xp))
                        + " and "@ + object_desc_s(inter.skip(xp + 1)) + "."@,
                    None => rest,
                }
            },
            None => rest,
        }
    } else if contains_char_s(rest, '{') && contains_char_s(rest, '}') && coords_applies(rest) {
        match (find_char_s(rest, '{'), find_char_s(rest, '}')) {
            (Some(a), Some(b)) => {
                let cut = match find_char_s(rest, '|') {
                    Some(p) => p,
                    None => a,
                };
                "Let point "@ + rest.subrange(0, cut) + " be at coordinates "@ + rest.subrange(
                    a + 1,
                    b,
                ) + "."@
            },
            _ => rest,
        }
    } else if contains_sub_s(rest, ".."@) {
        match find_sub_s(rest, ".."@) {
            Some(d) => "Construct point "@ + rest.subrange(0, d) + " in the region "@ + rest.skip(
                d + 2,
            ) + "."@,
            None => rest,
        }
    } else if contains_char_s(rest, '.') && contains_char_s(rest, '|') && on_object_cond_applies(
        rest,
    ) {
        match find_char_s(rest, '|') {
            Some(p) => {
                let point_obj = rest.subrange(0, p);
                let conds = rest.skip(p + 1);
                match find_char_s(point_obj, '.') {
                    Some(d) => "Construct point "@ + point_obj.subrange(0, d) + " on "@
                        + point_obj.skip(d + 1) + " such that "@ + join_s(
                        conditions_s(conds),
                        ", "@,
                    ) + "."@,
                    None => rest,
                }
            },
            None => rest,
        }
    } else if contains_char_s(rest, '.') {
        match find_char_s(rest, '.') {
            Some(d) => "Construct point "@ + rest.subrange(0, d) + " on "@ + rest.skip(d + 1)
                + "."@,
            None => rest,
        }
    } else {
        "Construct point "@ + rest + "."@
    }
}

/// Renders the point-construction sentence for `v`.
pub fn point_construction_vec(v: &Vec<char>) -> (r: Vec<char>)
    ensures
        r@ == point_construction_s(v@),
{
    let n = v.len();
    let has_comma = contains_char_vec(v, ',');
    let has_dot = contains_char_vec(v, '.');
    let has_pipe = contains_char_vec(v, '|');
    let has_x = contains_char_vec(v, 'x');
    let has_eq = contains_char_vec(v, '=');
    if has_comma && !has_dot && !has_pipe && !has_x {
        let mut out = lit("Construct points ");
        let whole = subvec(v, 0, n);
        push_all(&mut out, &whole);
        let dot = lit(".");
        push_all(&mut out, &dot);
        return out;
    }
    if has_x && has_eq {
        let fe = find_char_vec(v, '=');
        proof {
            lemma_find_char(v@, '=');
        }
        if let Some(e) = fe {
            let inter = subvec(v, e + 1, n);
            assert(inter@ =~= v@.skip(e + 1));
            let fx = find_char_vec(&inter, 'x');
            if let Some(xp) = fx {
                proof {
                    lemma_find_char(inter@, 'x');
                    assert(contains_char_s(inter@, 'x')) by {
                        assert(inter@[xp as int] == 'x');
                    }
                }
                let point = subvec(v, 0, e);
                let obj1 = subvec(&inter, 0, xp);
                let obj2 = subvec(&inter, xp + 1, inter.len());
                let mut out = lit("Let point ");
                push_all(&mut out, &point);
                let mid1 = lit(" be the intersection of ");
                push_all(&mut out, &mid1);
                let d1 = object_desc_vec(&obj1);
                push_all(&mut out, &d1);
                let mid2 = lit(" and ");
                push_all(&mut out, &mid2);
                let d2 = object_desc_vec(&obj2);
                push_all(&mut out, &d2);
                let dot = lit(".");
                push_all(&mut out, &dot);
                return out;
            }
            proof {
                lemma_find_char(inter@, 'x');
            }
        }
    }
    proof {
        if has_x && has_eq {
            lemma_find_char(v@, '=');
        }
    }
    let has_open = contains_char_vec(v, '{');
    let has_close = contains_char_vec(v, '}');
    if has_open && has_close {
        let fa = find_char_vec(v, '{');
        let fb = find_char_vec(v, '}');
        proof {
            lemma_find_char(v@, '{');
            lemma_find_char(v@, '}');
        }
        if let (Some(a), Some(b)) = (fa, fb) {
            if a < b {
                let fp = find_char_vec(v, '|');
                let cut: usize = match fp {
                    Some(p) => p,
                    None => a,
                };
                proof {
                    lemma_find_char(v@, '|');
                }
                let point = subvec(v, 0, cut);
                let coords = subvec(v, a + 1, b);
                let mut out = lit("Let point ");
                push_all(&mut out, &point);
                let mid = lit(" be at coordinates ");
                push_all(&mut out, &mid);
                push_all(&mut out, &coords);
                let dot = lit(".");
                push_all(&mut out, &dot);
                return out;
            }
        }
    }
    let ddot = lit("..");
    if contains_sub_vec(v, &ddot) {
        let fd = find_sub_vec(v, &ddot);
        proof {
            lemma_find_sub(v@, ".."@);
            reveal_strlit("..");
        }
        if let Some(d) = fd {
            let point = subvec(v, 0, d);
            let area = subvec(v, d + 2, n);
            assert(area@ =~= v@.skip(d + 2));
            let mut out = lit("Construct point ");
            push_all(&mut out, &point);
            let mid = lit(" in the region ");
            push_all(&mut out, &mid);
            push_all(&mut out, &area);
            let dot = lit(".");
            push_all(&mut out, &dot);
            return out;
        }
    }
    if has_dot && has_pipe {
        let fp = find_char_vec(v, '|');
        proof {
            lemma_find_char(v@, '|');
        }
        if let Some(p) = fp {
            let point_obj = subvec(v, 0, p);
            let conds = subvec(v, p + 1, n);
            assert(conds@ =~= v@.skip(p + 1));
            let fd = find_char_vec(&point_obj, '.');
            proof {
                lemma_find_char(point_obj@, '.');
            }
            if let Some(d) = fd {
                let point = subvec(&point_obj, 0, d);
                let obj = subvec(&point_obj, d + 1, point_obj.len());
                assert(obj@ =~= point_obj@.skip(d + 1));
                let parts = conditions_vec(&conds);
                let sep = lit(", ");
                let joined = join_vec(&parts, &sep);
                proof {
                    assert(views_of(parts@) =~= conditions_s(conds@));
                }
                let mut out = lit("Construct point ");
                push_all(&mut out, &point);
                let mid1 = lit(" on ");
                push_all(&mut out, &mid1);
                push_all(&mut out, &obj);
                let mid2 = lit(" such that ");
                push_all(&mut out, &mid2);
                push_all(&mut out, &joined);
                let dot = lit(".");
                push_all(&mut out, &dot);
                return out;
            }
        }
    }
    if has_dot {
        let fd = find_char_vec(v, '.');
        proof {
            lemma_find_char(v@, '.');
        }
        if let Some(d) = fd {
            let point = subvec(v, 0, d);
            let obj = subvec(v, d + 1, n);
            assert(obj@ =~= v@.skip(d + 1));
            let mut out = lit("Construct point ");
            push_all(&mut out, &point);
            let mid = lit(" on ");
            push_all(&mut out, &mid);
            push_all(&mut out, &obj);
            let dot = lit(".");
            push_all(&mut out, &dot);
            return out;
        }
    }
    let mut out = lit("Construct point ");
    let whole = subvec(v, 0, n);
    push_all(&mut out, &whole);
    let dot = lit(".");
    push_all(&mut out, &dot);
    out
}

} // verus!
