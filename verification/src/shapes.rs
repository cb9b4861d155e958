//! Circle construction and regular-polygon naming.

use vstd::prelude::*;
use crate::edit::{split_char_s, split_char_vec};
use crate::search::{contains_char_s, find_char_s, find_char_vec, lemma_find_char};
use crate::text::{lit, subvec, push_all, vec_eq_str};

verus! {

/// An ASCII digit or a decimal point.
pub open spec fn is_num_char(c: char) -> bool {
    48 <= c as u32 <= 57 || c == '.'
}

/// Every character of `s` is a digit or a decimal point.
pub open spec fn all_numeric_s(s: Seq<char>) -> bool {
    forall|i: int| 0 <= i < s.len() ==> is_num_char(s[i])
}

fn all_numeric_vec(v: &Vec<char>) -> (r: bool)
    ensures
        r == all_numeric_s(v@),
{
    let n = v.len();
    let mut i: usize = 0;
    while i < n
        invariant
            n == v@.len(),
            i <= n,
            forall|j: int| 0 <= j < i ==> is_num_char(v@[j]),
        decreases n - i,
    {
        let u = v[i] as u32;
        if !(48 <= u && u <= 57) && v[i] != '.' {
            return false;
        }
        i = i + 1;
    }
    true
}

/// The regular-polygon phrase for `n;side=name`: the counts three, four,
/// five, six and eight have fixed nouns; any other count reads as a
/// regular n-gon. Input of any other shape echoes unchanged.
pub open spec fn regular_polygon_s(s: Seq<char>) -> Seq<char> {
    let parts = split_char_s(s, ';');
    if parts.len() >= 2 && contains_char_s(parts[1], '=') {
        match find_char_s(parts[1], '=') {
            Some(e) => {
                let n = parts[0];
                let seg = parts[1].subrange(0, e);
                let poly = parts[1].skip(e + 1);
                if n == "3"@ {
                    "equilateral triangle "@ + poly + " with side "@ + seg
                } else if n == "4"@ {
                    "square "@ + poly + " with side "@ + seg
                } else if n == "5"@ {
                    "regular pentagon "@ + poly + " with side "@ + seg
                } else if n == "6"@ {
                    "regular hexagon "@ + poly + " with side "@ + seg
                } else if n == "8"@ {
                    "regular octagon "@ + poly + " with side "@ + seg
                } else {
                    "regular "@ + n + "-gon "@ + poly + " with side "@ + seg
                }
            },
            None => s,
        }
    } else {
        s
    }
}

/// Renders the regular-polygon phrase for `v`.
pub fn regular_polygon_vec(v: &Vec<char>) -> (r: Vec<char>)
    ensures
        r@ == regular_polygon_s(v@),
{
    let parts = split_char_vec(v, ';');
    if parts.len() >= 2 {
        let second = &parts[1];
        match find_char_vec(second, '=') {
            Some(e) => {
                proof {
                    lemma_find_char(second@, '=');
                    assert(contains_char_s(split_char_s(v@, ';')[1], '='));
                }
                let seg = subvec(second, 0, e);
                let poly = subvec(second, e + 1, second.len());
                let first = &parts[0];
                let mut out: Vec<char>;
                if vec_eq_str(first, "3") {
                    out = lit("equilateral triangle ");
                } else if vec_eq_str(first, "4") {
                    out = lit("square ");
                } else if vec_eq_str(first, "5") {
                    out = lit("regular pentagon ");
                } else if vec_eq_str(first, "6") {
                    out = lit("regular hexagon ");
                } else if vec_eq_str(first, "8") {
                    out = lit("regular octagon ");
                } else {
                    out = lit("regular ");
                    push_all(&mut out, first);
                    let mid = lit("-gon ");
                    push_all(&mut out, &mid);
                }
                push_all(&mut out, &poly);
                let withside = lit(" with side ");
                push_all(&mut out, &withside);
                push_all(&mut out, &seg);
                out
            },
            None => {
                proof {
                    lemma_find_char(second@, '=');
                }
                subvec(v, 0, v.len())
            },
        }
    } else {
        subvec(v, 0, v.len())
    }
}

/// The English sentence for a circle construction body: three fields give
/// a three-point circle; two fields give center and radius when the second
/// is numeric, else center and a through point; one field names the circle
/// after a leading equals sign, else gives a single through point.
pub open spec fn circle_s(rest: Seq<char>) -> Seq<char> {
    let parts = split_char_s(rest, ';');
    if parts.len() == 3 {
        "Construct a circle through points "@ + parts[0] + ", "@ + parts[1] + ", and "@ + parts[2]
            + "."@
    } else if parts.len() == 2 {
        if all_numeric_s(parts[1]) {
            "Construct a circle with center "@ + parts[0] + " and radius "@ + parts[1] + "."@
        } else {
            "Construct a circle with center "@ + parts[0] + " passing through point "@ + parts[1]
                + "."@
        }
    } else if parts.len() == 1 {
        if rest.len() > 0 && rest[0] == '=' {
            "Construct circle "@ + rest.skip(1) + "."@
        } else {
            "Construct a circle passing through point "@ + rest + "."@
        }
    } else {
        "Construct circle with parameters "@ + rest + "."@
    }
}

/// Renders the circle-construction sentence for `v`.
pub fn circle_vec(v: &Vec<char>) -> (r: Vec<char>)
    ensures
        r@ == circle_s(v@),
{
    let n = v.len();
    let parts = split_char_vec(v, ';');
    if parts.len() == 3 {
        let mut out = lit("Construct a circle through points ");
        push_all(&mut out, &parts[0]);
        let c1 = lit(", ");
        push_all(&mut out, &c1);
        push_all(&mut out, &parts[1]);
        let c2 = lit(", and ");
        push_all(&mut out, &c2);
        push_all(&mut out, &parts[2]);
        let dot = lit(".");
        push_all(&mut out, &dot);
        out
    } else if parts.len() == 2 {
        if all_numeric_vec(&parts[1]) {
            let mut out = lit("Construct a circle with center ");
            push_all(&mut out, &parts[0]);
            let mid = lit(" and radius ");
            push_all(&mut out, &mid);
            push_all(&mut out, &parts[1]);
            let dot = lit(".");
            push_all(&mut out, &dot);
            out
        } else {
            let mut out = lit("Construct a circle with center ");
            push_all(&mut out, &parts[0]);
            let mid = lit(" passing through point ");
            push_all(&mut out, &mid);
            push_all(&mut out, &parts[1]);
            let dot = lit(".");
            push_all(&mut out, &dot);
            out
        }
    } else if parts.len() == 1 {
        if n > 0 && v[0] == '=' {
            let mut out = lit("Construct circle ");
            let name = subvec(v, 1, n);
            push_all(&mut out, &name);
            let dot = lit(".");
            push_all(&mut out, &dot);
            out
        } else {
            let mut out = lit("Construct a circle passing through point ");
            let whole = subvec(v, 0, n);
            push_all(&mut out, &whole);
            let dot = lit(".");
            push_all(&mut out, &dot);
            out
        }
    } else {
        let mut out = lit("Construct circle with parameters ");
        let whole = subvec(v, 0, n);
        push_all(&mut out, &whole);
        let dot = lit(".");
        push_all(&mut out, &dot);
        out
    }
}

} // verus!
