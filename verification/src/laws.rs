//! The library's general laws, stated over the spec functions that the
//! public contracts use and proved once for all inputs.

use vstd::prelude::*;
use crate::conditions::condition_s;
use crate::edit::{split_char_s, lemma_trim_set_end_take};
use crate::measures::property_question_s;
use crate::point::point_construction_s;
use crate::search::{contains_char_s, contains_sub_s, match_at, find_char_s, lemma_find_char};
use crate::statement::statement_s;
use crate::tables::{derived_construction_s, property_name_s, relationship_name_s};
use crate::text::{is_ws_char, trim_s, lemma_trim_id, starts_with_s};

verus! {

/// A pattern whose first character never occurs in `s` never matches in `s`.
pub proof fn lemma_no_sub_without_head(s: Seq<char>, p: Seq<char>)
    requires
        p.len() > 0,
        !contains_char_s(s, p[0]),
    ensures
        !contains_sub_s(s, p),
{
    if contains_sub_s(s, p) {
        let i = choose|i: int| match_at(s, p, i);
        assert(s[i + 0] == p[0]);
        assert(contains_char_s(s, p[0])) by {
            assert(s[i] == p[0]);
        }
    }
}

/// Splitting `obj ++ * ++ code` on the star yields exactly the object
/// and the code, when neither holds a star of its own.
proof fn lemma_star_split(obj: Seq<char>, code: Seq<char>)
    requires
        !contains_char_s(obj, '*'),
        !contains_char_s(code, '*'),
    ensures
        split_char_s(obj + seq!['*'] + code, '*') == seq![obj, code],
{
    let c = obj + seq!['*'] + code;
    let e = obj.len() as int;
    assert(c[e] == '*');
    assert(find_char_s(c, '*') == Some(e)) by {
        lemma_find_char(c, '*');
        match find_char_s(c, '*') {
            None => {
                assert(contains_char_s(c, '*')) by {
                    assert(c[e] == '*');
                }
            },
            Some(i) => {
                if i < e {
                    assert(c[i] == obj[i]);
                    assert(contains_char_s(obj, '*')) by {
                        assert(obj[i] == '*');
                    }
                }
            },
        }
    }
    assert(c.subrange(0, e) =~= obj);
    assert(c.skip(e + 1) =~= code);
    assert(find_char_s(code, '*') is None) by {
        lemma_find_char(code, '*');
        match find_char_s(code, '*') {
            Some(i) => {
                assert(contains_char_s(code, '*')) by {
                    assert(code[i] == '*');
                }
            },
            None => {},
        }
    }
    assert(split_char_s(code, '*') == seq![code]);
    assert(seq![obj] + seq![code] =~= seq![obj, code]);
}

/// A star-notation condition whose code is in neither the property nor
/// the relationship table keeps the code verbatim in its fragment.
pub proof fn lemma_unknown_code_condition(obj: Seq<char>, code: Seq<char>)
    requires
        property_name_s(code) is None,
        relationship_name_s(code) is None,
        code != "+"@,
        code != "-"@,
        !contains_char_s(obj, '*'),
        !contains_char_s(code, '*'),
        !contains_char_s(obj, '['),
        !contains_char_s(code, '['),
        !starts_with_s(obj + seq!['*'] + code, "R:"@),
        obj.len() > 0 ==> !is_ws_char(obj[0]),
        code.len() > 0 ==> !is_ws_char(code[code.len() - 1]),
    ensures
        condition_s(obj + seq!['*'] + code) == obj + " is "@ + code,
{
    let c = obj + seq!['*'] + code;
    assert(c[obj.len() as int] == '*');
    assert(!is_ws_char(c[0]));
    assert(!is_ws_char(c[c.len() - 1])) by {
        if code.len() > 0 {
            assert(c[c.len() - 1] == code[code.len() - 1]);
        } else {
            assert(c[c.len() - 1] == '*');
        }
    }
    lemma_trim_id(c);
    assert(!contains_char_s(c, '[')) by {
        if contains_char_s(c, '[') {
            let j = choose|j: int| 0 <= j < c.len() && c[j] == '[';
            if j < obj.len() {
                assert(contains_char_s(obj, '[')) by {
                    assert(obj[j] == '[');
                }
            } else if j > obj.len() {
                assert(contains_char_s(code, '[')) by {
                    assert(code[j - obj.len() - 1] == '[');
                }
            }
        }
    }
    assert(contains_char_s(c, '*')) by {
        assert(c[obj.len() as int] == '*');
    }
    lemma_star_split(obj, code);
    let parts = split_char_s(c, '*');
    assert(parts.len() == 2 && parts[0] == obj && parts[1] == code);
}

/// A star-notation question whose code is in neither the property nor
/// the relationship table keeps the code verbatim in the question.
pub proof fn lemma_unknown_code_question(obj: Seq<char>, code: Seq<char>)
    requires
        property_name_s(code) is None,
        relationship_name_s(code) is None,
        !contains_char_s(obj, '*'),
        !contains_char_s(code, '*'),
        code.len() > 0 ==> code[code.len() - 1] != '?',
    ensures
        !contains_char_s(code, ';') ==> property_question_s(obj + seq!['*'] + code) == "Is "@ + obj
            + " "@ + code + "?"@,
        contains_char_s(code, ';') ==> property_question_s(obj + seq!['*'] + code) == "Are "@ + obj
            + " "@ + code + "?"@,
{
    let t = obj + seq!['*'] + code;
    assert(t[t.len() - 1] != '?') by {
        if code.len() > 0 {
            assert(t[t.len() - 1] == code[code.len() - 1]);
        } else {
            assert(t[t.len() - 1] == '*');
        }
    }
    lemma_trim_set_end_take(t, '?', '?', t.len() as int);
    assert(t.take(t.len() as int) =~= t);
    let e = obj.len() as int;
    assert(find_char_s(t, '*') == Some(e)) by {
        lemma_find_char(t, '*');
        assert(t[e] == '*');
        match find_char_s(t, '*') {
            None => {
                assert(contains_char_s(t, '*')) by {
                    assert(t[e] == '*');
                }
            },
            Some(i) => {
                if i < e {
                    assert(t[i] == obj[i]);
                    assert(contains_char_s(obj, '*')) by {
                        assert(obj[i] == '*');
                    }
                }
            },
        }
    }
    assert(t.subrange(0, e) =~= obj);
    assert(t.skip(e + 1) =~= code);
}

/// A well-formed point list: capital point names and the commas between
/// them, with at least one comma.
pub open spec fn point_list_chars(rest: Seq<char>) -> bool {
    &&& forall|i: int|
        0 <= i < rest.len() ==> (65 <= #[trigger] rest[i] as u32 <= 90 || rest[i] == ',')
    &&& contains_char_s(rest, ',')
}

/// A point construction over a well-formed point list translates to
/// exactly the comma list of its points, with its punctuation kept.
pub proof fn lemma_point_list(rest: Seq<char>)
    requires
        point_list_chars(rest),
    ensures
        statement_s("P:"@ + rest) == "Construct points "@ + rest + "."@,
{
    reveal_strlit("P:");
    let s = "P:"@ + rest;
    assert(rest.len() > 0) by {
        let j = choose|j: int| 0 <= j < rest.len() && rest[j] == ',';
    }
    assert(s[0] == 'P');
    assert(s[1] == ':');
    assert forall|i: int| 2 <= i < s.len() implies s[i] == rest[i - 2] by {}
    assert(!is_ws_char(s[0]));
    assert(!is_ws_char(s[s.len() - 1])) by {
        assert(s[s.len() - 1] == rest[rest.len() - 1]);
    }
    lemma_trim_id(s);
    assert(!starts_with_s(s, "\\p:"@)) by {
        reveal_strlit("\\p:");
    }
    assert(!starts_with_s(s, "\\pC:"@)) by {
        reveal_strlit("\\pC:");
    }
    assert(s != "\\q"@ && s != "□"@ && s != "\\qC"@ && s != "↯"@ && s != "\\bc"@ && s != "∵"@
        && s != "\\th"@ && s != "∴"@) by {
        reveal_strlit("\\q");
        reveal_strlit("□");
        reveal_strlit("\\qC");
        reveal_strlit("↯");
        reveal_strlit("\\bc");
        reveal_strlit("∵");
        reveal_strlit("\\th");
        reveal_strlit("∴");
        assert(s.len() >= 3);
        if s == "\\q"@ || s == "□"@ || s == "↯"@ || s == "∵"@ || s == "∴"@ {
            assert(s.len() <= 2);
        }
        if s == "\\qC"@ || s == "\\bc"@ || s == "\\th"@ {
            assert(s[0] == '\\');
        }
    }
    assert(!contains_sub_s(s, "||"@)) by {
        reveal_strlit("||");
        if contains_sub_s(s, "||"@) {
            let i = choose|i: int| match_at(s, "||"@, i);
            assert(s[i + 0] == "||"@[0]);
            assert(s[i] == '|');
        }
    }
    assert(!contains_char_s(s, '∨'));
    assert(!contains_sub_s(s, "&&"@)) by {
        reveal_strlit("&&");
        if contains_sub_s(s, "&&"@) {
            let i = choose|i: int| match_at(s, "&&"@, i);
            assert(s[i + 0] == "&&"@[0]);
            assert(s[i] == '&');
        }
    }
    assert(!contains_char_s(s, '∧'));
    assert(!contains_sub_s(s, "=>"@)) by {
        reveal_strlit("=>");
        if contains_sub_s(s, "=>"@) {
            let i = choose|i: int| match_at(s, "=>"@, i);
            assert(s[i + 0] == "=>"@[0]);
            assert(s[i] == '=');
        }
    }
    assert(!contains_char_s(s, '⊃'));
    assert(!starts_with_s(s, "|A"@)) by {
        reveal_strlit("|A");
    }
    assert(!starts_with_s(s, "∀"@)) by {
        reveal_strlit("∀");
    }
    assert(!starts_with_s(s, "|E"@)) by {
        reveal_strlit("|E");
    }
    assert(!starts_with_s(s, "∃"@)) by {
        reveal_strlit("∃");
    }
    assert(!contains_sub_s(s, "<<"@)) by {
        reveal_strlit("<<");
        if contains_sub_s(s, "<<"@) {
            let i = choose|i: int| match_at(s, "<<"@, i);
            assert(s[i + 0] == "<<"@[0]);
            assert(s[i] == '<');
        }
    }
    assert(!contains_sub_s(s, ">>"@)) by {
        reveal_strlit(">>");
        if contains_sub_s(s, ">>"@) {
            let i = choose|i: int| match_at(s, ">>"@, i);
            assert(s[i + 0] == ">>"@[0]);
            assert(s[i] == '>');
        }
    }
    assert(derived_construction_s(s) is None) by {
        reveal_strlit("CCO:");
        reveal_strlit("ICO:");
        reveal_strlit("EAB:");
        reveal_strlit("ECO:");
        reveal_strlit("PB:");
        reveal_strlit("CC:");
        reveal_strlit("AB:");
        reveal_strlit("IC:");
        reveal_strlit("EC:");
        reveal_strlit("MD:");
        reveal_strlit("CT:");
        reveal_strlit("PD:");
        reveal_strlit("OC:");
        reveal_strlit("9O:");
        reveal_strlit("9C:");
        reveal_strlit("PL:");
        reveal_strlit("TG:");
        reveal_strlit("M:");
    }
    assert(!starts_with_s(s, "G:"@)) by {
        reveal_strlit("G:");
    }
    assert(starts_with_s(s, "P:"@));
    assert(s.skip(2) =~= rest);
    assert(!contains_char_s(rest, '.'));
    assert(!contains_char_s(rest, '|'));
    assert(!contains_char_s(rest, 'x'));
    assert(point_construction_s(rest) == "Construct points "@ + rest + "."@);
    assert(statement_s(s) == "Construct points "@ + rest + "."@);
}

proof fn lemma_find_slash_at_one(u: Seq<char>)
    requires
        u.len() >= 2,
        u[0] != '/',
        u[1] == '/',
    ensures
        find_char_s(u, '/') == Some(1int),
{
    lemma_find_char(u, '/');
    match find_char_s(u, '/') {
        None => {
            assert(contains_char_s(u, '/')) by {
                assert(u[1] == '/');
            }
        },
        Some(i) => {
            if i > 1 {
                assert(u[1] != '/');
            }
        },
    }
}

/// Splitting a wrapped three-statement text yields exactly its three
/// statements, whatever whitespace surrounds the wrapper.
pub proof fn lemma_split_wrapped(w1: Seq<char>, w2: Seq<char>)
    requires
        forall|i: int| 0 <= i < w1.len() ==> is_ws_char(#[trigger] w1[i]),
        forall|i: int| 0 <= i < w2.len() ==> is_ws_char(#[trigger] w2[i]),
    ensures
        crate::translate::split_statements_s(w1 + "\\\\A/B/C\\\\"@ + w2) == seq![
            "A"@,
            "B"@,
            "C"@,
        ],
{
    reveal_strlit("\\\\A/B/C\\\\");
    reveal_strlit("\\\\");
    reveal_strlit("A/B/C");
    reveal_strlit("B/C");
    reveal_strlit("A");
    reveal_strlit("B");
    reveal_strlit("C");
    let core0 = "\\\\A/B/C\\\\"@;
    let s = w1 + core0 + w2;
    assert forall|j: int| 0 <= j < w1.len() implies is_ws_char(s[j]) by {
        assert(s[j] == w1[j]);
    }
    assert(s[w1.len() as int] == '\\');
    crate::text::lemma_trim_start_skip(s, w1.len() as int);
    assert(s.skip(w1.len() as int) =~= core0 + w2);
    let s2 = core0 + w2;
    assert(core0.len() == 9);
    assert forall|j: int| 9 <= j < s2.len() implies is_ws_char(s2[j]) by {
        assert(s2[j] == w2[j - 9]);
    }
    assert(s2[8] == '\\');
    crate::text::lemma_trim_end_take(s2, 9);
    assert(s2.take(9) =~= core0);
    assert(trim_s(s) == core0);
    assert(starts_with_s(core0, "\\\\"@));
    assert(crate::text::ends_with_s(core0, "\\\\"@));
    let u = core0.subrange(2, 7);
    assert(u =~= "A/B/C"@);
    lemma_find_slash_at_one("A/B/C"@);
    assert("A/B/C"@.subrange(0, 1) =~= "A"@);
    assert("A/B/C"@.skip(2) =~= "B/C"@);
    lemma_find_slash_at_one("B/C"@);
    assert("B/C"@.subrange(0, 1) =~= "B"@);
    assert("B/C"@.skip(2) =~= "C"@);
    assert(find_char_s("C"@, '/') is None) by {
        lemma_find_char("C"@, '/');
        match find_char_s("C"@, '/') {
            Some(i) => {
                assert("C"@[i] == '/');
                assert("C"@[0] == 'C');
            },
            None => {},
        }
    }
    assert(split_char_s("C"@, '/') == seq!["C"@]);
    assert(split_char_s("B/C"@, '/') == seq!["B"@] + seq!["C"@]);
    assert(split_char_s("A/B/C"@, '/') == seq!["A"@] + (seq!["B"@] + seq!["C"@]));
    let pieces = split_char_s("A/B/C"@, '/');
    assert(pieces =~= seq!["A"@, "B"@, "C"@]);
    lemma_trim_id("A"@);
    lemma_trim_id("B"@);
    lemma_trim_id("C"@);
    assert(pieces.skip(1) =~= seq!["B"@, "C"@]);
    assert(seq!["B"@, "C"@].skip(1) =~= seq!["C"@]);
    assert(seq!["C"@].skip(1) =~= Seq::<Seq<char>>::empty());
    assert(crate::translate::statements_of(Seq::<Seq<char>>::empty()) == Seq::<Seq<
        char,
    >>::empty());
    assert(crate::translate::statements_of(seq!["C"@]) =~= seq!["C"@]);
    assert(crate::translate::statements_of(seq!["B"@, "C"@]) =~= seq!["B"@, "C"@]);
    assert(crate::translate::statements_of(pieces) =~= seq!["A"@, "B"@, "C"@]);
}

/// A theorem code: an underscore followed by capital letters and digits.
pub open spec fn theorem_code_chars(code: Seq<char>) -> bool {
    &&& code.len() >= 2
    &&& code[0] == '_'
    &&& forall|i: int|
        1 <= i < code.len() ==> (65 <= #[trigger] code[i] as u32 <= 90 || 48 <= code[i] as u32
            <= 57)
}

/// A statement that is a bare theorem code — whether or not the code is
/// in the theorem table — matches no translation rule and echoes
/// verbatim, so no code is ever dropped or blanked.
pub proof fn lemma_theorem_code_echo(code: Seq<char>)
    requires
        theorem_code_chars(code),
    ensures
        statement_s(code) == code,
{
    let s = code;
    assert(!is_ws_char(s[0]));
    assert(!is_ws_char(s[s.len() - 1]));
    lemma_trim_id(s);
    assert(!starts_with_s(s, "\\p:"@)) by {
        reveal_strlit("\\p:");
    }
    assert(!starts_with_s(s, "\\pC:"@)) by {
        reveal_strlit("\\pC:");
    }
    assert(s != "\\q"@ && s != "□"@ && s != "\\qC"@ && s != "↯"@ && s != "\\bc"@ && s != "∵"@
        && s != "\\th"@ && s != "∴"@) by {
        reveal_strlit("\\q");
        reveal_strlit("□");
        reveal_strlit("\\qC");
        reveal_strlit("↯");
        reveal_strlit("\\bc");
        reveal_strlit("∵");
        reveal_strlit("\\th");
        reveal_strlit("∴");
        if s == "\\q"@ || s == "\\qC"@ || s == "\\bc"@ || s == "\\th"@ {
            assert(s[0] == '\\');
        }
        if s == "□"@ || s == "↯"@ || s == "∵"@ || s == "∴"@ {
            assert(s.len() == 1);
        }
    }
    assert(!contains_char_s(s, '|'));
    assert(!contains_char_s(s, '&'));
    assert(!contains_char_s(s, '='));
    assert(!contains_char_s(s, '<'));
    assert(!contains_char_s(s, '>'));
    assert(!contains_char_s(s, '!'));
    assert(!contains_sub_s(s, "||"@)) by {
        reveal_strlit("||");
        lemma_no_sub_without_head(s, "||"@);
    }
    assert(!contains_char_s(s, '∨'));
    assert(!contains_sub_s(s, "&&"@)) by {
        reveal_strlit("&&");
        lemma_no_sub_without_head(s, "&&"@);
    }
    assert(!contains_char_s(s, '∧'));
    assert(!contains_sub_s(s, "=>"@)) by {
        reveal_strlit("=>");
        lemma_no_sub_without_head(s, "=>"@);
    }
    assert(!contains_char_s(s, '⊃'));
    assert(!starts_with_s(s, "|A"@)) by {
        reveal_strlit("|A");
    }
    assert(!starts_with_s(s, "∀"@)) by {
        reveal_strlit("∀");
    }
    assert(!starts_with_s(s, "|E"@)) by {
        reveal_strlit("|E");
    }
    assert(!starts_with_s(s, "∃"@)) by {
        reveal_strlit("∃");
    }
    assert(!contains_sub_s(s, "<<"@)) by {
        reveal_strlit("<<");
        lemma_no_sub_without_head(s, "<<"@);
    }
    assert(!contains_sub_s(s, ">>"@)) by {
        reveal_strlit(">>");
        lemma_no_sub_without_head(s, ">>"@);
    }
    assert(derived_construction_s(s) is None) by {
        reveal_strlit("CCO:");
        reveal_strlit("ICO:");
        reveal_strlit("EAB:");
        reveal_strlit("ECO:");
        reveal_strlit("PB:");
        reveal_strlit("CC:");
        reveal_strlit("AB:");
        reveal_strlit("IC:");
        reveal_strlit("EC:");
        reveal_strlit("MD:");
        reveal_strlit("CT:");
        reveal_strlit("PD:");
        reveal_strlit("OC:");
        reveal_strlit("9O:");
        reveal_strlit("9C:");
        reveal_strlit("PL:");
        reveal_strlit("TG:");
        reveal_strlit("M:");
    }
    assert(!starts_with_s(s, "G:"@)) by {
        reveal_strlit("G:");
    }
    assert(!starts_with_s(s, "P:"@)) by {
        reveal_strlit("P:");
    }
    assert(!starts_with_s(s, "S:"@)) by {
        reveal_strlit("S:");
    }
    assert(!starts_with_s(s, "L:"@)) by {
        reveal_strlit("L:");
    }
    assert(!starts_with_s(s, "W:"@)) by {
        reveal_strlit("W:");
    }
    assert(!starts_with_s(s, "C:"@)) by {
        reveal_strlit("C:");
    }
    assert(!starts_with_s(s, "J:"@)) by {
        reveal_strlit("J:");
    }
    assert(!starts_with_s(s, "R:"@)) by {
        reveal_strlit("R:");
    }
    assert(s[0] != 'a' && s[0] != 'q');
    assert(!contains_char_s(s, '['));
    assert(!contains_char_s(s, '('));
    assert(!contains_char_s(s, '∠'));
    assert(!crate::text::ends_with_s(s, "\\?"@)) by {
        reveal_strlit("\\?");
        if crate::text::ends_with_s(s, "\\?"@) {
            assert(s[s.len() - 2 + 1] == "\\?"@[1]);
            assert(s[s.len() - 1] == '?');
        }
    }
    assert(s[s.len() - 1] != '?');
    assert(!contains_sub_s(s, "!="@)) by {
        reveal_strlit("!=");
        lemma_no_sub_without_head(s, "!="@);
    }
    assert(!contains_char_s(s, '≠'));
    assert(!contains_sub_s(s, ">="@)) by {
        reveal_strlit(">=");
        lemma_no_sub_without_head(s, ">="@);
    }
    assert(!contains_char_s(s, '≥'));
    assert(!contains_sub_s(s, "<="@)) by {
        reveal_strlit("<=");
        lemma_no_sub_without_head(s, "<="@);
    }
    assert(!contains_char_s(s, '≤'));
    assert(statement_s(s) == s);
}

/// `s` wrapped in `n` proof markers.
pub open spec fn nest_prove_s(n: nat, s: Seq<char>) -> Seq<char>
    decreases n,
{
    if n == 0 {
        s
    } else {
        "\\p:"@ + nest_prove_s((n - 1) as nat, s)
    }
}

/// The announcement prefix repeated `n` times.
pub open spec fn prove_prefix_s(n: nat) -> Seq<char>
    decreases n,
{
    if n == 0 {
        Seq::empty()
    } else {
        "We will prove: "@ + prove_prefix_s((n - 1) as nat)
    }
}

proof fn lemma_nest_shape(n: nat, s: Seq<char>)
    ensures
        nest_prove_s(n, s).len() == 3 * n + s.len(),
        n >= 1 ==> nest_prove_s(n, s)[0] == '\\',
        s.len() > 0 ==> (nest_prove_s(n, s).len() > 0 && nest_prove_s(n, s)[nest_prove_s(
            n,
            s,
        ).len() - 1] == s[s.len() - 1]),
        s.len() == 0 && n >= 1 ==> nest_prove_s(n, s)[nest_prove_s(n, s).len() - 1] == ':',
    decreases n,
{
    reveal_strlit("\\p:");
    if n >= 1 {
        lemma_nest_shape((n - 1) as nat, s);
    }
}

/// Proof markers nest to any depth: a statement wrapped in `n` proof
/// markers translates to `n` announcements followed by the translation
/// of the statement itself, for every `n`. Together with the decreasing
/// measures of the translator this bounds every recursion by the input
/// length.
pub proof fn lemma_nested_proof_markers(n: nat, s: Seq<char>)
    requires
        s.len() > 0 ==> !is_ws_char(s[s.len() - 1]),
    ensures
        statement_s(nest_prove_s(n, s)) == prove_prefix_s(n) + statement_s(s),
    decreases n,
{
    reveal_strlit("\\p:");
    if n == 0 {
        assert(prove_prefix_s(0) + statement_s(s) =~= statement_s(s));
    } else {
        let m = nest_prove_s((n - 1) as nat, s);
        let t0 = "\\p:"@ + m;
        assert(nest_prove_s(n, s) == t0);
        lemma_nest_shape((n - 1) as nat, s);
        lemma_nest_shape(n, s);
        assert(t0.len() > 0 && !is_ws_char(t0[0]));
        assert(!is_ws_char(t0[t0.len() - 1]));
        lemma_trim_id(t0);
        assert(starts_with_s(t0, "\\p:"@));
        assert(t0.skip(3) =~= m);
        lemma_nested_proof_markers((n - 1) as nat, s);
        assert(statement_s(t0) == "We will prove: "@ + (prove_prefix_s((n - 1) as nat)
            + statement_s(s)));
        assert("We will prove: "@ + (prove_prefix_s((n - 1) as nat) + statement_s(s)) =~= (
        "We will prove: "@ + prove_prefix_s((n - 1) as nat)) + statement_s(s));
    }
}

} // verus!
