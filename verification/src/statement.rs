//! The statement classifier and translator: one statement of the
//! shorthand becomes one English sentence. Rules are tried in a fixed
//! priority and the first match wins; proof and casework wrappers recurse
//! on a strictly shorter remainder.

use vstd::prelude::*;
use crate::edit::{split_char_s, split_char_vec, split_sub_s, split_sub_vec, replace_s,
    replace_vec, trim_set_s, trim_set_vec, trim_set_end_s, trim_end_matches_vec,
    trim_end_matches_sub_s, trim_end_matches_sub_vec, join_s, join_vec, views_of, dec_str_s,
    dec_vec};
use crate::measures::{arc_s, arc_vec, sector_s, sector_vec, area_s, area_vec, perimeter_s,
    perimeter_vec, angle_s, angle_vec, property_question_s, property_question_vec};
use crate::point::{point_construction_s, point_construction_vec};
use crate::search::{contains_char_s, contains_sub_s, find_sub_s, find_sub_vec, lemma_find_sub,
    match_at, contains_char_vec, contains_sub_vec};
use crate::shapes::{circle_s, circle_vec, regular_polygon_s, regular_polygon_vec};
use crate::tables::{derived_construction_s, derived_construction};
use crate::text::{trim_s, trim_vec, lemma_trim_le, starts_with_s, starts_with_vec, ends_with_s,
    ends_with_vec, lit, subvec, push_all, vec_eq_str};

verus! {

/// The enumerated sentences for a sequence of case pairs, the first
/// numbered `k`. A pair keeps its position number even when a malformed
/// neighbour is dropped.
pub open spec fn case_sentences_s(pairs: Seq<Seq<char>>, k: nat) -> Seq<Seq<char>>
    decreases pairs.len(),
{
    if pairs.len() == 0 {
        Seq::empty()
    } else {
        let c = trim_set_s(pairs[0], '(', ')');
        let parts = split_char_s(c, ';');
        let rest = case_sentences_s(pairs.skip(1), k + 1);
        if parts.len() == 2 {
            seq!["Case "@ + dec_str_s(k) + ": if "@ + parts[0] + ", then "@ + parts[1]] + rest
        } else {
            rest
        }
    }
}

/// The casework block interior, rendered as enumerated conditional
/// sentences joined by semicolons. Pairs are separated by the literal
/// close-comma-open boundary; a pair without exactly one interior
/// semicolon is dropped.
pub open spec fn casework_s(cases: Seq<char>) -> Seq<char> {
    join_s(case_sentences_s(split_sub_s(cases, "),("@), 1), "; "@)
}

/// Renders a casework block interior.
pub fn casework_vec(cases: &Vec<char>) -> (r: Vec<char>)
    ensures
        r@ == casework_s(cases@),
{
    let boundary = lit("),(");
    proof {
        reveal_strlit("),(");
    }
    let pairs = split_sub_vec(cases, &boundary);
    let m = pairs.len();
    let ghost pv = split_sub_s(cases@, "),("@);
    proof {
        assert(views_of(pairs@) =~= pv);
    }
    let mut sents: Vec<Vec<char>> = Vec::new();
    let mut i: usize = 0;
    assert(pv.skip(0) =~= pv);
    assert(views_of(sents@) + case_sentences_s(pv, 1) =~= case_sentences_s(pv, 1));
    while i < m
        invariant
            m == pairs@.len(),
            m == pv.len(),
            forall|j: int| 0 <= j < m ==> pairs@[j]@ == pv[j],
            i <= m,
            views_of(sents@) + case_sentences_s(pv.skip(i as int), (i + 1) as nat)
                == case_sentences_s(pv, 1),
        decreases m - i,
    {
        let ghost pre = views_of(sents@);
        let ghost rest = pv.skip(i as int);
        proof {
            assert(rest[0] == pv[i as int]);
            assert(rest.skip(1) =~= pv.skip(i as int + 1));
        }
        let c = trim_set_vec(&pairs[i], '(', ')');
        let parts = split_char_vec(&c, ';');
        if parts.len() == 2 {
            let mut sentence = lit("Case ");
            let digits = dec_vec(i + 1);
            push_all(&mut sentence, &digits);
            let mid1 = lit(": if ");
            push_all(&mut sentence, &mid1);
            push_all(&mut sentence, &parts[0]);
            let mid2 = lit(", then ");
            push_all(&mut sentence, &mid2);
            push_all(&mut sentence, &parts[1]);
            sents.push(sentence);
            proof {
                let tail = case_sentences_s(pv.skip(i as int + 1), (i + 2) as nat);
                assert(case_sentences_s(rest, (i + 1) as nat) == seq![
                    "Case "@ + dec_str_s((i + 1) as nat) + ": if "@ + split_char_s(
                        trim_set_s(pv[i as int], '(', ')'),
                        ';',
                    )[0] + ", then "@ + split_char_s(trim_set_s(pv[i as int], '(', ')'), ';')[1]
                ] + tail);
                assert(views_of(sents@) =~= pre + seq![sentence@]);
                assert(pre + (seq![sentence@] + tail) =~= (pre + seq![sentence@]) + tail);
            }
        } else {
            proof {
                assert(case_sentences_s(rest, (i + 1) as nat) == case_sentences_s(
                    pv.skip(i as int + 1),
                    (i + 2) as nat,
                ));
            }
        }
        i = i + 1;
    }
    proof {
        assert(pv.skip(m as int) =~= Seq::<Seq<char>>::empty());
        assert(views_of(sents@) + case_sentences_s(pv.skip(m as int), (m + 1) as nat) =~= views_of(
            sents@,
        ));
    }
    let sep = lit("; ");
    let r = join_vec(&sents, &sep);
    r
}

/// A statement that matched no higher-priority rule: derived and
/// primitive constructions, arc and sector statements, area, perimeter
/// and angle forms, proof-inquiry and plain questions, comparison
/// substitutions, and finally a verbatim echo.
pub open spec fn simple_statement_s(t: Seq<char>) -> Seq<char> {
    match derived_construction_s(t) {
        Some(nr) => "Construct the "@ + nr.0 + " of "@ + nr.1 + "."@,
        None => {
            if starts_with_s(t, "G:"@) {
                "Graph the function "@ + trim_set_s(trim_s(t.skip(2)), '{', '}') + "."@
            } else if starts_with_s(t, "P:"@) {
                point_construction_s(t.skip(2))
            } else if starts_with_s(t, "S:"@) {
                "Connect segment "@ + t.skip(2) + "."@
            } else if starts_with_s(t, "L:"@) {
                "Connect line "@ + t.skip(2) + "."@
            } else if starts_with_s(t, "W:"@) {
                "Construct ray "@ + t.skip(2) + "."@
            } else if starts_with_s(t, "C:"@) {
                circle_s(t.skip(2))
            } else if starts_with_s(t, "J:"@) {
                "Construct polygon "@ + t.skip(2) + "."@
            } else if starts_with_s(t, "R:"@) {
                "Construct "@ + regular_polygon_s(t.skip(2)) + "."@
            } else if t.len() > 0 && t[0] == 'a' && (contains_char_s(t, '=') || contains_char_s(
                t,
                '?',
            )) {
                arc_s(t)
            } else if t.len() > 0 && t[0] == 'q' && (contains_char_s(t, '=') || contains_char_s(
                t,
                '?',
            )) {
                sector_s(t)
            } else if contains_char_s(t, '[') && contains_char_s(t, ']') {
                area_s(t)
            } else if contains_char_s(t, '(') && contains_char_s(t, ')') {
                perimeter_s(t)
            } else if contains_char_s(t, '<') || contains_char_s(t, '∠') {
                angle_s(t)
            } else if ends_with_s(t, "\\?"@) {
                "Prove that "@ + trim_end_matches_sub_s(t, "\\?"@) + "."@
            } else if t.len() > 0 && t[t.len() - 1] == '?' {
                if contains_char_s(t, '*') {
                    property_question_s(t)
                } else {
                    "What is "@ + trim_set_end_s(t, '?', '?') + "?"@
                }
            } else if contains_sub_s(t, "!="@) || contains_char_s(t, '≠') {
                replace_s(replace_s(t, "!="@, " does not equal "@), "≠"@, " does not equal "@)
            } else if contains_sub_s(t, ">="@) || contains_char_s(t, '≥') {
                replace_s(
                    replace_s(t, ">="@, " is greater than or equal to "@),
                    "≥"@,
                    " is greater than or equal to "@,
                )
            } else if contains_sub_s(t, "<="@) || contains_char_s(t, '≤') {
                replace_s(
                    replace_s(t, "<="@, " is less than or equal to "@),
                    "≤"@,
                    " is less than or equal to "@,
                )
            } else {
                t
            }
        },
    }
}

/// Renders a statement that matched no higher-priority rule.
pub fn simple_statement_vec(t: &Vec<char>) -> (r: Vec<char>)
    ensures
        r@ == simple_statement_s(t@),
{
    let n = t.len();
    match derived_construction(t) {
        Some(nr) => {
            let mut out = lit("Construct the ");
            push_all(&mut out, &nr.0);
            let mid = lit(" of ");
            push_all(&mut out, &mid);
            push_all(&mut out, &nr.1);
            let dot = lit(".");
            push_all(&mut out, &dot);
            out
        },
        None => {
            if starts_with_vec(t, &lit("G:")) {
                proof {
                    reveal_strlit("G:");
                }
                let body = subvec(t, 2, n);
                let trimmed = trim_vec(&body);
                let eq = trim_set_vec(&trimmed, '{', '}');
                let mut out = lit("Graph the function ");
                push_all(&mut out, &eq);
                let dot = lit(".");
                push_all(&mut out, &dot);
                out
            } else if starts_with_vec(t, &lit("P:")) {
                proof {
                    reveal_strlit("P:");
                }
                let body = subvec(t, 2, n);
                point_construction_vec(&body)
            } else if starts_with_vec(t, &lit("S:")) {
                proof {
                    reveal_strlit("S:");
                }
                let body = subvec(t, 2, n);
                let mut out = lit("Connect segment ");
                push_all(&mut out, &body);
                let dot = lit(".");
                push_all(&mut out, &dot);
                out
            } else if starts_with_vec(t, &lit("L:")) {
                proof {
                    reveal_strlit("L:");
                }
                let body = subvec(t, 2, n);
                let mut out = lit("Connect line ");
                push_all(&mut out, &body);
                let dot = lit(".");
                push_all(&mut out, &dot);
                out
            } else if starts_with_vec(t, &lit("W:")) {
                proof {
                    reveal_strlit("W:");
                }
                let body = subvec(t, 2, n);
                let mut out = lit("Construct ray ");
                push_all(&mut out, &body);
                let dot = lit(".");
                push_all(&mut out, &dot);
                out
            } else if starts_with_vec(t, &lit("C:")) {
                proof {
                    reveal_strlit("C:");
                }
                let body = subvec(t, 2, n);
                circle_vec(&body)
            } else if starts_with_vec(t, &lit("J:")) {
                proof {
                    reveal_strlit("J:");
                }
                let body = subvec(t, 2, n);
                let mut out = lit("Construct polygon ");
                push_all(&mut out, &body);
                let dot = lit(".");
                push_all(&mut out, &dot);
                out
            } else if starts_with_vec(t, &lit("R:")) {
                proof {
                    reveal_strlit("R:");
                }
                let body = subvec(t, 2, n);
                let poly = regular_polygon_vec(&body);
                let mut out = lit("Construct ");
                push_all(&mut out, &poly);
                let dot = lit(".");
                push_all(&mut out, &dot);
                out
            } else if n > 0 && t[0] == 'a' && (contains_char_vec(t, '=') || contains_char_vec(
                t,
                '?',
            )) {
                arc_vec(t)
            } else if n > 0 && t[0] == 'q' && (contains_char_vec(t, '=') || contains_char_vec(
                t,
                '?',
            )) {
                sector_vec(t)
            } else if contains_char_vec(t, '[') && contains_char_vec(t, ']') {
                area_vec(t)
            } else if contains_char_vec(t, '(') && contains_char_vec(t, ')') {
                perimeter_vec(t)
            } else if contains_char_vec(t, '<') || contains_char_vec(t, '∠') {
                angle_vec(t)
            } else if ends_with_vec(t, &lit("\\?")) {
                proof {
                    reveal_strlit("\\?");
                }
                let pat = lit("\\?");
                let clean = trim_end_matches_sub_vec(t, &pat);
                let mut out = lit("Prove that ");
                push_all(&mut out, &clean);
                let dot = lit(".");
                push_all(&mut out, &dot);
                out
            } else if n > 0 && t[n - 1] == '?' {
                if contains_char_vec(t, '*') {
                    property_question_vec(t)
                } else {
                    let clean = trim_end_matches_vec(t, '?');
                    let mut out = lit("What is ");
                    push_all(&mut out, &clean);
                    let q = lit("?");
                    push_all(&mut out, &q);
                    out
                }
            } else {
                let ne = lit("!=");
                let ge = lit(">=");
                let le = lit("<=");
                proof {
                    reveal_strlit("!=");
                    reveal_strlit(">=");
                    reveal_strlit("<=");
                    reveal_strlit("≠");
                    reveal_strlit("≥");
                    reveal_strlit("≤");
                }
                if contains_sub_vec(t, &ne) || contains_char_vec(t, '≠') {
                    let rep = lit(" does not equal ");
                    let first = replace_vec(t, &ne, &rep);
                    let glyph = lit("≠");
                    replace_vec(&first, &glyph, &rep)
                } else if contains_sub_vec(t, &ge) || contains_char_vec(t, '≥') {
                    let rep = lit(" is greater than or equal to ");
                    let first = replace_vec(t, &ge, &rep);
                    let glyph = lit("≥");
                    replace_vec(&first, &glyph, &rep)
                } else if contains_sub_vec(t, &le) || contains_char_vec(t, '≤') {
                    let rep = lit(" is less than or equal to ");
                    let first = replace_vec(t, &le, &rep);
                    let glyph = lit("≤");
                    replace_vec(&first, &glyph, &rep)
                } else {
                    subvec(t, 0, n)
                }
            }
        },
    }
}

/// The English sentence for one statement. Proof markers recurse on the
/// remainder; connective and quantifier rules substitute in place;
/// casework splits into a head and an enumerated block; everything else
/// is classified by `simple_statement_s`.
pub open spec fn statement_s(s: Seq<char>) -> Seq<char>
    decreases s.len(),
    via statement_s_decreases
{
    let t = trim_s(s);
    if t.len() == 0 {
        Seq::empty()
    } else if starts_with_s(t, "\\p:"@) {
        "We will prove: "@ + statement_s(t.skip(3))
    } else if starts_with_s(t, "\\pC:"@) {
        "We will prove by contradiction: "@ + statement_s(t.skip(4))
    } else if t == "\\q"@ || t == "□"@ {
        "And that is what was to be shown."@
    } else if t == "\\qC"@ || t == "↯"@ {
        "Achieving a contradiction."@
    } else if t == "\\bc"@ || t == "∵"@ {
        "Because"@
    } else if t == "\\th"@ || t == "∴"@ {
        "Therefore"@
    } else if contains_sub_s(t, "||"@) || contains_char_s(t, '∨') {
        replace_s(replace_s(t, "||"@, " or "@), "∨"@, " or "@)
    } else if contains_sub_s(t, "&&"@) || contains_char_s(t, '∧') {
        replace_s(replace_s(t, "&&"@, " and "@), "∧"@, " and "@)
    } else if contains_sub_s(t, "=>"@) || contains_char_s(t, '⊃') {
        replace_s(replace_s(t, "=>"@, " implies "@), "⊃"@, " implies "@)
    } else if starts_with_s(t, "|A"@) {
        "For all "@ + t.skip(2)
    } else if starts_with_s(t, "∀"@) {
        "For all "@ + t.skip(1)
    } else if starts_with_s(t, "|E"@) {
        "There exists "@ + t.skip(2)
    } else if starts_with_s(t, "∃"@) {
        "There exists "@ + t.skip(1)
    } else if contains_sub_s(t, "<<"@) {
        match find_sub_s(t, "<<"@) {
            Some(m) => {
                let head = t.subrange(0, m);
                let tail = t.skip(m + 2);
                if contains_sub_s(tail, ">>"@) {
                    match find_sub_s(tail, ">>"@) {
                        Some(e) => statement_s(head) + "\nBegin casework: "@ + casework_s(
                            tail.subrange(0, e),
                        ),
                        None => Seq::empty(),
                    }
                } else {
                    statement_s(head) + "\nBegin casework."@
                }
            },
            None => Seq::empty(),
        }
    } else if contains_sub_s(t, ">>"@) {
        "End casework."@
    } else {
        simple_statement_s(t)
    }
}

#[via_fn]
proof fn statement_s_decreases(s: Seq<char>) {
    let t = trim_s(s);
    lemma_trim_le(s);
    reveal_strlit("\\p:");
    reveal_strlit("\\pC:");
    reveal_strlit("<<");
    lemma_find_sub(t, "<<"@);
}

/// Renders one statement.
pub fn translate_statement_vec(s: &Vec<char>) -> (r: Vec<char>)
    ensures
        r@ == statement_s(s@),
    decreases s@.len(),
{
    let t = trim_vec(s);
    proof {
        lemma_trim_le(s@);
    }
    let n = t.len();
    if n == 0 {
        return Vec::new();
    }
    if starts_with_vec(&t, &lit("\\p:")) {
        proof {
            reveal_strlit("\\p:");
        }
        let body = subvec(&t, 3, n);
        assert(body@ =~= trim_s(s@).skip(3));
        let inner = translate_statement_vec(&body);
        let mut out = lit("We will prove: ");
        push_all(&mut out, &inner);
        return out;
    }
    if starts_with_vec(&t, &lit("\\pC:")) {
        proof {
            reveal_strlit("\\pC:");
        }
        let body = subvec(&t, 4, n);
        assert(body@ =~= trim_s(s@).skip(4));
        let inner = translate_statement_vec(&body);
        let mut out = lit("We will prove by contradiction: ");
        push_all(&mut out, &inner);
        return out;
    }
    if vec_eq_str(&t, "\\q") || vec_eq_str(&t, "□") {
        return lit("And that is what was to be shown.");
    }
    if vec_eq_str(&t, "\\qC") || vec_eq_str(&t, "↯") {
        return lit("Achieving a contradiction.");
    }
    if vec_eq_str(&t, "\\bc") || vec_eq_str(&t, "∵") {
        return lit("Because");
    }
    if vec_eq_str(&t, "\\th") || vec_eq_str(&t, "∴") {
        return lit("Therefore");
    }
    let orop = lit("||");
    let andop = lit("&&");
    let impop = lit("=>");
    proof {
        reveal_strlit("||");
        reveal_strlit("&&");
        reveal_strlit("=>");
        reveal_strlit("∨");
        reveal_strlit("∧");
        reveal_strlit("⊃");
    }
    if contains_sub_vec(&t, &orop) || contains_char_vec(&t, '∨') {
        let rep = lit(" or ");
        let first = replace_vec(&t, &orop, &rep);
        let glyph = lit("∨");
        return replace_vec(&first, &glyph, &rep);
    }
    if contains_sub_vec(&t, &andop) || contains_char_vec(&t, '∧') {
        let rep = lit(" and ");
        let first = replace_vec(&t, &andop, &rep);
        let glyph = lit("∧");
        return replace_vec(&first, &glyph, &rep);
    }
    if contains_sub_vec(&t, &impop) || contains_char_vec(&t, '⊃') {
        let rep = lit(" implies ");
        let first = replace_vec(&t, &impop, &rep);
        let glyph = lit("⊃");
        return replace_vec(&first, &glyph, &rep);
    }
    if starts_with_vec(&t, &lit("|A")) {
        proof {
            reveal_strlit("|A");
        }
        let body = subvec(&t, 2, n);
        let mut out = lit("For all ");
        push_all(&mut out, &body);
        return out;
    }
    if starts_with_vec(&t, &lit("∀")) {
        proof {
            reveal_strlit("∀");
        }
        let body = subvec(&t, 1, n);
        let mut out = lit("For all ");
        push_all(&mut out, &body);
        return out;
    }
    if starts_with_vec(&t, &lit("|E")) {
        proof {
            reveal_strlit("|E");
        }
        let body = subvec(&t, 2, n);
        let mut out = lit("There exists ");
        push_all(&mut out, &body);
        return out;
    }
    if starts_with_vec(&t, &lit("∃")) {
        proof {
            reveal_strlit("∃");
        }
        let body = subvec(&t, 1, n);
        let mut out = lit("There exists ");
        push_all(&mut out, &body);
        return out;
    }
    let open_tok = lit("<<");
    let close_tok = lit(">>");
    proof {
        reveal_strlit("<<");
        reveal_strlit(">>");
    }
    match find_sub_vec(&t, &open_tok) {
        Some(m) => {
            proof {
                lemma_find_sub(t@, "<<"@);
                assert(contains_sub_s(t@, "<<"@)) by {
                    assert(match_at(t@, "<<"@, m as int));
                }
            }
            let head = subvec(&t, 0, m);
            let tail = subvec(&t, m + 2, n);
            assert(tail@ =~= trim_s(s@).skip(m + 2));
            assert(head@.len() < s@.len());
            let inner = translate_statement_vec(&head);
            match find_sub_vec(&tail, &close_tok) {
                Some(e) => {
                    proof {
                        lemma_find_sub(tail@, ">>"@);
                        assert(contains_sub_s(tail@, ">>"@)) by {
                            assert(match_at(tail@, ">>"@, e as int));
                        }
                    }
                    let content = subvec(&tail, 0, e);
                    let cases = casework_vec(&content);
                    let mut out = inner;
                    let mid = lit("\nBegin casework: ");
                    push_all(&mut out, &mid);
                    push_all(&mut out, &cases);
                    return out;
                },
                None => {
                    proof {
                        lemma_find_sub(tail@, ">>"@);
                    }
                    let mut out = inner;
                    let mid = lit("\nBegin casework.");
                    push_all(&mut out, &mid);
                    return out;
                },
            }
        },
        None => {
            proof {
                lemma_find_sub(t@, "<<"@);
            }
        },
    }
    if contains_sub_vec(&t, &close_tok) {
        return lit("End casework.");
    }
    simple_statement_vec(&t)
}

} // verus!
