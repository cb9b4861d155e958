//! Arc, sector, area, perimeter and angle statements, and the
//! property/relationship question form.

use vstd::prelude::*;
use crate::edit::{split_char_s, split_char_vec, replace_s, replace_vec, remove_char_s,
    remove_char_vec, trim_set_start_s, trim_set_end_s, trim_start_matches_vec,
    trim_end_matches_vec};
use crate::search::{contains_char_s, contains_sub_s, find_char_s, find_char_vec,
    lemma_find_char, contains_char_vec, contains_sub_vec};
use crate::tables::{property_name_s, property_name, relationship_name_s, relationship_name};
use crate::text::{starts_with_s, starts_with_vec, lit, subvec, push_all, vec_eq_str};

verus! {

/// The English sentence for an arc statement: an assignment gives the
/// arc a measure (after a leading angle bracket) or a length; inequality
/// glyphs spell out; a trailing question mark asks for the length.
pub open spec fn arc_s(t: Seq<char>) -> Seq<char> {
    if contains_char_s(t, '=') && !contains_sub_s(t, "!="@) && !(t.len() > 0 && t[t.len() - 1]
        == '?') && split_char_s(t, '=').len() == 2 {
        let parts = split_char_s(t, '=');
        let arc = trim_set_start_s(parts[0], 'a', 'a');
        let val = parts[1];
        if starts_with_s(t, "<a"@) {
            "Arc "@ + arc + " has measure "@ + val + " degrees."@
        } else {
            "Arc "@ + arc + " has length "@ + val + "."@
        }
    } else if contains_sub_s(t, "!="@) || contains_char_s(t, '≠') {
        replace_s(replace_s(t, "!="@, " does not equal "@), "≠"@, " does not equal "@)
    } else if t.len() > 0 && t[t.len() - 1] == '?' {
        "What is the length of arc "@ + trim_set_start_s(
            trim_set_end_s(t, '?', '?'),
            'a',
            'a',
        ) + "?"@
    } else {
        t
    }
}

/// Renders an arc statement.
pub fn arc_vec(v: &Vec<char>) -> (r: Vec<char>)
    ensures
        r@ == arc_s(v@),
{
    let n = v.len();
    let bangeq = lit("!=");
    proof {
        reveal_strlit("!=");
        reveal_strlit("≠");
    }
    let has_eq = contains_char_vec(v, '=');
    let has_ne = contains_sub_vec(v, &bangeq);
    let ends_q = n > 0 && v[n - 1] == '?';
    if has_eq && !has_ne && !ends_q {
        let parts = split_char_vec(v, '=');
        if parts.len() == 2 {
            let arc = trim_start_matches_vec(&parts[0], 'a');
            let mut out;
            if starts_with_vec(v, &lit("<a")) {
                out = lit("Arc ");
                push_all(&mut out, &arc);
                let mid = lit(" has measure ");
                push_all(&mut out, &mid);
                push_all(&mut out, &parts[1]);
                let tail = lit(" degrees.");
                push_all(&mut out, &tail);
            } else {
                out = lit("Arc ");
                push_all(&mut out, &arc);
                let mid = lit(" has length ");
                push_all(&mut out, &mid);
                push_all(&mut out, &parts[1]);
                let tail = lit(".");
                push_all(&mut out, &tail);
            }
            return out;
        }
    }
    if has_ne || contains_char_vec(v, '≠') {
        let rep = lit(" does not equal ");
        let first = replace_vec(v, &bangeq, &rep);
        let neq = lit("≠");
        return replace_vec(&first, &neq, &rep);
    }
    if ends_q {
        let stripped = trim_end_matches_vec(v, '?');
        let arc = trim_start_matches_vec(&stripped, 'a');
        let mut out = lit("What is the length of arc ");
        push_all(&mut out, &arc);
        let tail = lit("?");
        push_all(&mut out, &tail);
        return out;
    }
    subvec(v, 0, n)
}

/// The English sentence for a sector statement: an assignment gives the
/// sector's area; a trailing question mark asks for it.
pub open spec fn sector_s(t: Seq<char>) -> Seq<char> {
    if contains_char_s(t, '=') && !(t.len() > 0 && t[t.len() - 1] == '?') && split_char_s(
        t,
        '=',
    ).len() == 2 {
        let parts = split_char_s(t, '=');
        "The area of sector "@ + trim_set_start_s(parts[0], 'q', 'q') + " is "@ + parts[1] + "."@
    } else if t.len() > 0 && t[t.len() - 1] == '?' {
        "What is the area of sector "@ + trim_set_start_s(
            trim_set_end_s(t, '?', '?'),
            'q',
            'q',
        ) + "?"@
    } else {
        t
    }
}

/// Renders a sector statement.
pub fn sector_vec(v: &Vec<char>) -> (r: Vec<char>)
    ensures
        r@ == sector_s(v@),
{
    let n = v.len();
    let has_eq = contains_char_vec(v, '=');
    let ends_q = n > 0 && v[n - 1] == '?';
    if has_eq && !ends_q {
        let parts = split_char_vec(v, '=');
        if parts.len() == 2 {
            let sector = trim_start_matches_vec(&parts[0], 'q');
            let mut out = lit("The area of sector ");
            push_all(&mut out, &sector);
            let mid = lit(" is ");
            push_all(&mut out, &mid);
            push_all(&mut out, &parts[1]);
            let tail = lit(".");
            push_all(&mut out, &tail);
            return out;
        }
    }
    if ends_q {
        let stripped = trim_end_matches_vec(v, '?');
        let sector = trim_start_matches_vec(&stripped, 'q');
        let mut out = lit("What is the area of sector ");
        push_all(&mut out, &sector);
        let tail = lit("?");
        push_all(&mut out, &tail);
        return out;
    }
    subvec(v, 0, n)
}

/// The English sentence for a bracketed area statement: `[X]=v` assigns
/// the area, `[X]?` asks for it; anything else echoes unchanged.
pub open spec fn area_s(t: Seq<char>) -> Seq<char> {
    match (find_char_s(t, '['), find_char_s(t, ']')) {
        (Some(a), Some(b)) => {
            if a < b {
                let obj = t.subrange(a + 1, b);
                let rest = t.skip(b + 1);
                if rest.len() > 0 && rest[0] == '=' {
                    "Let the area of "@ + obj + " be "@ + rest.skip(1) + "."@
                } else if rest == "?"@ {
                    "What is the area of "@ + obj + "?"@
                } else {
                    t
                }
            } else {
                t
            }
        },
        _ => t,
    }
}

/// Renders a bracketed area statement.
pub fn area_vec(v: &Vec<char>) -> (r: Vec<char>)
    ensures
        r@ == area_s(v@),
{
    let n = v.len();
    let fa = find_char_vec(v, '[');
    let fb = find_char_vec(v, ']');
    proof {
        lemma_find_char(v@, '[');
        lemma_find_char(v@, ']');
    }
    if let (Some(a), Some(b)) = (fa, fb) {
        if a < b {
            let obj = subvec(v, a + 1, b);
            let rest = subvec(v, b + 1, n);
            assert(rest@ =~= v@.skip(b + 1));
            if rest.len() > 0 && rest[0] == '=' {
                let mut out = lit("Let the area of ");
                push_all(&mut out, &obj);
                let mid = lit(" be ");
                push_all(&mut out, &mid);
                let val = subvec(&rest, 1, rest.len());
                push_all(&mut out, &val);
                let tail = lit(".");
                push_all(&mut out, &tail);
                return out;
            }
            if vec_eq_str(&rest, "?") {
                let mut out = lit("What is the area of ");
                push_all(&mut out, &obj);
                let tail = lit("?");
                push_all(&mut out, &tail);
                return out;
            }
        }
    }
    subvec(v, 0, n)
}

/// The English sentence for a parenthesized perimeter statement:
/// `(X)=v` assigns the perimeter, `(X)?` asks for it; anything else
/// echoes unchanged.
pub open spec fn perimeter_s(t: Seq<char>) -> Seq<char> {
    match (find_char_s(t, '('), find_char_s(t, ')')) {
        (Some(a), Some(b)) => {
            if a < b {
                let obj = t.subrange(a + 1, b);
                let rest = t.skip(b + 1);
                if rest.len() > 0 && rest[0] == '=' {
                    "Let the perimeter of "@ + obj + " be "@ + rest.skip(1) + "."@
                } else if rest == "?"@ {
                    "What is the perimeter of "@ + obj + "?"@
                } else {
                    t
                }
            } else {
                t
            }
        },
        _ => t,
    }
}

/// Renders a parenthesized perimeter statement.
pub fn perimeter_vec(v: &Vec<char>) -> (r: Vec<char>)
    ensures
        r@ == perimeter_s(v@),
{
    let n = v.len();
    let fa = find_char_vec(v, '(');
    let fb = find_char_vec(v, ')');
    proof {
        lemma_find_char(v@, '(');
        lemma_find_char(v@, ')');
    }
    if let (Some(a), Some(b)) = (fa, fb) {
        if a < b {
            let obj = subvec(v, a + 1, b);
            let rest = subvec(v, b + 1, n);
            assert(rest@ =~= v@.skip(b + 1));
            if rest.len() > 0 && rest[0] == '=' {
                let mut out = lit("Let the perimeter of ");
                push_all(&mut out, &obj);
                let mid = lit(" be ");
                push_all(&mut out, &mid);
                let val = subvec(&rest, 1, rest.len());
                push_all(&mut out, &val);
                let tail = lit(".");
                push_all(&mut out, &tail);
                return out;
            }
            if vec_eq_str(&rest, "?") {
                let mut out = lit("What is the perimeter of ");
                push_all(&mut out, &obj);
                let tail = lit("?");
                push_all(&mut out, &tail);
                return out;
            }
        }
    }
    subvec(v, 0, n)
}

/// The English sentence for an angle statement: the angle glyphs are
/// removed, then `X=v` states the measure, a trailing question mark asks
/// for it, and anything else names the angle.
pub open spec fn angle_s(t: Seq<char>) -> Seq<char> {
    let r = remove_char_s(remove_char_s(t, '<'), '∠');
    if contains_char_s(r, '=') && split_char_s(r, '=').len() == 2 {
        let parts = split_char_s(r, '=');
        "Angle "@ + parts[0] + " measures "@ + parts[1] + " degrees."@
    } else if r.len() > 0 && r[r.len() - 1] == '?' {
        "What is the measure of angle "@ + trim_set_end_s(r, '?', '?') + "?"@
    } else {
        "Angle "@ + r
    }
}

/// Renders an angle statement.
pub fn angle_vec(v: &Vec<char>) -> (r: Vec<char>)
    ensures
        r@ == angle_s(v@),
{
    let first = remove_char_vec(v, '<');
    let stripped = remove_char_vec(&first, '∠');
    let n = stripped.len();
    if contains_char_vec(&stripped, '=') {
        let parts = split_char_vec(&stripped, '=');
        if parts.len() == 2 {
            let mut out = lit("Angle ");
            push_all(&mut out, &parts[0]);
            let mid = lit(" measures ");
            push_all(&mut out, &mid);
            push_all(&mut out, &parts[1]);
            let tail = lit(" degrees.");
            push_all(&mut out, &tail);
            return out;
        }
    }
    if n > 0 && stripped[n - 1] == '?' {
        let clean = trim_end_matches_vec(&stripped, '?');
        let mut out = lit("What is the measure of angle ");
        push_all(&mut out, &clean);
        let tail = lit("?");
        push_all(&mut out, &tail);
        return out;
    }
    let mut out = lit("Angle ");
    push_all(&mut out, &stripped);
    out
}

/// The English question for a star-notation query: the code after the
/// star is looked up as a relationship when it holds a semicolon and as
/// a property otherwise, and echoes verbatim when it is in neither
/// table; without a star the whole statement is asked about.
pub open spec fn property_question_s(t: Seq<char>) -> Seq<char> {
    let clean = trim_set_end_s(t, '?', '?');
    match find_char_s(clean, '*') {
        Some(sp) => {
            let obj = clean.subrange(0, sp);
            let prop = clean.skip(sp + 1);
            if contains_char_s(prop, ';') {
                "Are "@ + obj + " "@ + (match relationship_name_s(prop) {
                    Some(r) => r,
                    None => prop,
                }) + "?"@
            } else {
                "Is "@ + obj + " "@ + (match property_name_s(prop) {
                    Some(r) => r,
                    None => prop,
                }) + "?"@
            }
        },
        None => "What is "@ + clean + "?"@,
    }
}

/// Renders a star-notation question.
pub fn property_question_vec(v: &Vec<char>) -> (r: Vec<char>)
    ensures
        r@ == property_question_s(v@),
{
    let clean = trim_end_matches_vec(v, '?');
    let m = clean.len();
    let fs = find_char_vec(&clean, '*');
    proof {
        lemma_find_char(clean@, '*');
    }
    match fs {
        Some(sp) => {
            let obj = subvec(&clean, 0, sp);
            let prop = subvec(&clean, sp + 1, m);
            assert(prop@ =~= clean@.skip(sp + 1));
            if contains_char_vec(&prop, ';') {
                let mut out = lit("Are ");
                push_all(&mut out, &obj);
                let sp1 = lit(" ");
                push_all(&mut out, &sp1);
                match relationship_name(&prop) {
                    Some(name) => {
                        push_all(&mut out, &name);
                    },
                    None => {
                        push_all(&mut out, &prop);
                    },
                }
                let tail = lit("?");
                push_all(&mut out, &tail);
                out
            } else {
                let mut out = lit("Is ");
                push_all(&mut out, &obj);
                let sp1 = lit(" ");
                push_all(&mut out, &sp1);
                match property_name(&prop) {
                    Some(name) => {
                        push_all(&mut out, &name);
                    },
                    None => {
                        push_all(&mut out, &prop);
                    },
                }
                let tail = lit("?");
                push_all(&mut out, &tail);
                out
            }
        },
        None => {
            let mut out = lit("What is ");
            push_all(&mut out, &clean);
            let tail = lit("?");
            push_all(&mut out, &tail);
            out
        },
    }
}

} // verus!
