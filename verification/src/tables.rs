//! The five symbol tables: property, relationship and theorem codes,
//! constant glyphs, and derived-construction prefixes. Each is a fixed
//! code-to-phrase map, written as a spec function with a verified lookup.

use vstd::prelude::*;
use crate::text::{starts_with_s, starts_with_vec, vec_eq_str, lit, subvec};

verus! {

/// The phrase for a property code, if the code is in the property table.
pub open spec fn property_name_s(code: Seq<char>) -> Option<Seq<char>> {
    if code == "R"@ {
        Some("regular"@)
    } else if code == "CV"@ {
        Some("convex"@)
    } else if code == "CC"@ {
        Some("concave"@)
    } else if code == "RT"@ {
        Some("right"@)
    } else if code == "OB"@ {
        Some("obtuse"@)
    } else if code == "AC"@ {
        Some("acute"@)
    } else if code == "SC"@ {
        Some("scalene"@)
    } else if code == "IS"@ {
        Some("isosceles"@)
    } else if code == "TR"@ {
        Some("trapezoid"@)
    } else if code == "PL"@ {
        Some("parallelogram"@)
    } else if code == "EQ"@ {
        Some("equilateral"@)
    } else if code == "EA"@ {
        Some("equiangular"@)
    } else if code == "C"@ {
        Some("cyclic"@)
    } else if code == "TP"@ {
        Some("tangential"@)
    } else {
        None
    }
}

/// Looks up a property code.
pub fn property_name(code: &Vec<char>) -> (r: Option<Vec<char>>)
    ensures
        match r {
            Some(v) => property_name_s(code@) == Some(v@),
            None => property_name_s(code@) is None,
        },
{
    if vec_eq_str(code, "R") {
        Some(lit("regular"))
    } else if vec_eq_str(code, "CV") {
        Some(lit("convex"))
    } else if vec_eq_str(code, "CC") {
        Some(lit("concave"))
    } else if vec_eq_str(code, "RT") {
        Some(lit("right"))
    } else if vec_eq_str(code, "OB") {
        Some(lit("obtuse"))
    } else if vec_eq_str(code, "AC") {
        Some(lit("acute"))
    } else if vec_eq_str(code, "SC") {
        Some(lit("scalene"))
    } else if vec_eq_str(code, "IS") {
        Some(lit("isosceles"))
    } else if vec_eq_str(code, "TR") {
        Some(lit("trapezoid"))
    } else if vec_eq_str(code, "PL") {
        Some(lit("parallelogram"))
    } else if vec_eq_str(code, "EQ") {
        Some(lit("equilateral"))
    } else if vec_eq_str(code, "EA") {
        Some(lit("equiangular"))
    } else if vec_eq_str(code, "C") {
        Some(lit("cyclic"))
    } else if vec_eq_str(code, "TP") {
        Some(lit("tangential"))
    } else {
        None
    }
}

/// The phrase for a relationship code, if the code is in the relationship table.
pub open spec fn relationship_name_s(code: Seq<char>) -> Option<Seq<char>> {
    if code == "S"@ {
        Some("collinear"@)
    } else if code == "P"@ {
        Some("parallel"@)
    } else if code == "∥"@ {
        Some("parallel"@)
    } else if code == "PR"@ {
        Some("perpendicular"@)
    } else if code == "PD"@ {
        Some("perpendicular"@)
    } else if code == "⊥"@ {
        Some("perpendicular"@)
    } else if code == "TG"@ {
        Some("tangent"@)
    } else if code == "CG"@ {
        Some("congruent"@)
    } else if code == "≅"@ {
        Some("congruent"@)
    } else if code == "SM"@ {
        Some("similar"@)
    } else if code == "~"@ {
        Some("similar"@)
    } else {
        None
    }
}

/// Looks up a relationship code.
pub fn relationship_name(code: &Vec<char>) -> (r: Option<Vec<char>>)
    ensures
        match r {
            Some(v) => relationship_name_s(code@) == Some(v@),
            None => relationship_name_s(code@) is None,
        },
{
    if vec_eq_str(code, "S") {
        Some(lit("collinear"))
    } else if vec_eq_str(code, "P") {
        Some(lit("parallel"))
    } else if vec_eq_str(code, "∥") {
        Some(lit("parallel"))
    } else if vec_eq_str(code, "PR") {
        Some(lit("perpendicular"))
    } else if vec_eq_str(code, "PD") {
        Some(lit("perpendicular"))
    } else if vec_eq_str(code, "⊥") {
        Some(lit("perpendicular"))
    } else if vec_eq_str(code, "TG") {
        Some(lit("tangent"))
    } else if vec_eq_str(code, "CG") {
        Some(lit("congruent"))
    } else if vec_eq_str(code, "≅") {
        Some(lit("congruent"))
    } else if vec_eq_str(code, "SM") {
        Some(lit("similar"))
    } else if vec_eq_str(code, "~") {
        Some(lit("similar"))
    } else {
        None
    }
}

/// The name for a theorem code, if the code is in the theorem table.
pub open spec fn theorem_name_s(code: Seq<char>) -> Option<Seq<char>> {
    if code == "_PY"@ {
        Some("Pythagorean Theorem"@)
    } else if code == "_TI"@ {
        Some("Triangle Inequality"@)
    } else if code == "_ST"@ {
        Some("Stewart's Theorem"@)
    } else if code == "_AT"@ {
        Some("Apollonius Theorem"@)
    } else if code == "_VT"@ {
        Some("Viviani's Theorem"@)
    } else if code == "_NP"@ {
        Some("Napoleon's Theorem"@)
    } else if code == "_EL"@ {
        Some("Euler Line"@)
    } else if code == "_9C"@ {
        Some("Nine-Point Circle"@)
    } else if code == "_SL"@ {
        Some("Simson Line"@)
    } else if code == "_CV"@ {
        Some("Ceva's Theorem"@)
    } else if code == "_ML"@ {
        Some("Menelaus' Theorem"@)
    } else if code == "_AB"@ {
        Some("Angle Bisector Theorem"@)
    } else if code == "_IE"@ {
        Some("Incenter-Excenter Lemma"@)
    } else if code == "_CT"@ {
        Some("Carnot's Theorem"@)
    } else if code == "_MQ"@ {
        Some("Miquel's Theorem"@)
    } else if code == "_ET"@ {
        Some("Euler's Theorem"@)
    } else if code == "_DT"@ {
        Some("Desargue's Theorem"@)
    } else if code == "_HF"@ {
        Some("Heron's Formula"@)
    } else if code == "_QF"@ {
        Some("Bretschinder's Formula"@)
    } else if code == "_BF"@ {
        Some("Brahmagupta's Formula"@)
    } else if code == "_JT"@ {
        Some("Japanese Theorem"@)
    } else if code == "_NT"@ {
        Some("Newton's Theorem"@)
    } else if code == "_PT"@ {
        Some("Ptolemy's Theorem"@)
    } else if code == "_PP"@ {
        Some("Power of a Point Theorem"@)
    } else if code == "_BT"@ {
        Some("Butterfly Theorem"@)
    } else if code == "_PC"@ {
        Some("Pascal's Theorem"@)
    } else if code == "_LC"@ {
        Some("Law of Cosines"@)
    } else if code == "_LS"@ {
        Some("Law of Sines"@)
    } else if code == "_LT"@ {
        Some("Law of Tangents"@)
    } else if code == "_PK"@ {
        Some("Pick's Theorem"@)
    } else if code == "_SH"@ {
        Some("Shoelace Theorem"@)
    } else if code == "_SSC"@ {
        Some("SSS Congruence"@)
    } else if code == "_SAC"@ {
        Some("SAS Congruence"@)
    } else if code == "_SSA"@ {
        Some("SSA Congruence"@)
    } else if code == "_ASA"@ {
        Some("ASA Congruence"@)
    } else if code == "_AAS"@ {
        Some("AAS Congruence"@)
    } else if code == "_HL"@ {
        Some("HL Congruence"@)
    } else if code == "_AA"@ {
        Some("AA Similarity"@)
    } else if code == "_SAS"@ {
        Some("SAS Similarity"@)
    } else if code == "_SSS"@ {
        Some("SSS Similarity"@)
    } else {
        None
    }
}

/// Looks up a theorem code.
pub fn theorem_name(code: &Vec<char>) -> (r: Option<Vec<char>>)
    ensures
        match r {
            Some(v) => theorem_name_s(code@) == Some(v@),
            None => theorem_name_s(code@) is None,
        },
{
    if vec_eq_str(code, "_PY") {
        Some(lit("Pythagorean Theorem"))
    } else if vec_eq_str(code, "_TI") {
        Some(lit("Triangle Inequality"))
    } else if vec_eq_str(code, "_ST") {
        Some(lit("Stewart's Theorem"))
    } else if vec_eq_str(code, "_AT") {
        Some(lit("Apollonius Theorem"))
    } else if vec_eq_str(code, "_VT") {
        Some(lit("Viviani's Theorem"))
    } else if vec_eq_str(code, "_NP") {
        Some(lit("Napoleon's Theorem"))
    } else if vec_eq_str(code, "_EL") {
        Some(lit("Euler Line"))
    } else if vec_eq_str(code, "_9C") {
        Some(lit("Nine-Point Circle"))
    } else if vec_eq_str(code, "_SL") {
        Some(lit("Simson Line"))
    } else if vec_eq_str(code, "_CV") {
        Some(lit("Ceva's Theorem"))
    } else if vec_eq_str(code, "_ML") {
        Some(lit("Menelaus' Theorem"))
    } else if vec_eq_str(code, "_AB") {
        Some(lit("Angle Bisector Theorem"))
    } else if vec_eq_str(code, "_IE") {
        Some(lit("Incenter-Excenter Lemma"))
    } else if vec_eq_str(code, "_CT") {
        Some(lit("Carnot's Theorem"))
    } else if vec_eq_str(code, "_MQ") {
        Some(lit("Miquel's Theorem"))
    } else if vec_eq_str(code, "_ET") {
        Some(lit("Euler's Theorem"))
    } else if vec_eq_str(code, "_DT") {
        Some(lit("Desargue's Theorem"))
    } else if vec_eq_str(code, "_HF") {
        Some(lit("Heron's Formula"))
    } else if vec_eq_str(code, "_QF") {
        Some(lit("Bretschinder's Formula"))
    } else if vec_eq_str(code, "_BF") {
        Some(lit("Brahmagupta's Formula"))
    } else if vec_eq_str(code, "_JT") {
        Some(lit("Japanese Theorem"))
    } else if vec_eq_str(code, "_NT") {
        Some(lit("Newton's Theorem"))
    } else if vec_eq_str(code, "_PT") {
        Some(lit("Ptolemy's Theorem"))
    } else if vec_eq_str(code, "_PP") {
        Some(lit("Power of a Point Theorem"))
    } else if vec_eq_str(code, "_BT") {
        Some(lit("Butterfly Theorem"))
    } else if vec_eq_str(code, "_PC") {
        Some(lit("Pascal's Theorem"))
    } else if vec_eq_str(code, "_LC") {
        Some(lit("Law of Cosines"))
    } else if vec_eq_str(code, "_LS") {
        Some(lit("Law of Sines"))
    } else if vec_eq_str(code, "_LT") {
        Some(lit("Law of Tangents"))
    } else if vec_eq_str(code, "_PK") {
        Some(lit("Pick's Theorem"))
    } else if vec_eq_str(code, "_SH") {
        Some(lit("Shoelace Theorem"))
    } else if vec_eq_str(code, "_SSC") {
        Some(lit("SSS Congruence"))
    } else if vec_eq_str(code, "_SAC") {
        Some(lit("SAS Congruence"))
    } else if vec_eq_str(code, "_SSA") {
        Some(lit("SSA Congruence"))
    } else if vec_eq_str(code, "_ASA") {
        Some(lit("ASA Congruence"))
    } else if vec_eq_str(code, "_AAS") {
        Some(lit("AAS Congruence"))
    } else if vec_eq_str(code, "_HL") {
        Some(lit("HL Congruence"))
    } else if vec_eq_str(code, "_AA") {
        Some(lit("AA Similarity"))
    } else if vec_eq_str(code, "_SAS") {
        Some(lit("SAS Similarity"))
    } else if vec_eq_str(code, "_SSS") {
        Some(lit("SSS Similarity"))
    } else {
        None
    }
}

/// The phrase for a constant code or glyph, if it is in the constant table.
pub open spec fn constant_name_s(code: Seq<char>) -> Option<Seq<char>> {
    if code == "\\T"@ {
        Some("τ (tau)"@)
    } else if code == "τ"@ {
        Some("τ (tau)"@)
    } else if code == "\\P"@ {
        Some("π (pi)"@)
    } else if code == "π"@ {
        Some("π (pi)"@)
    } else if code == "\\G"@ {
        Some("φ (phi)"@)
    } else if code == "φ"@ {
        Some("φ (phi)"@)
    } else {
        None
    }
}

/// Looks up a constant code or glyph.
pub fn constant_name(code: &Vec<char>) -> (r: Option<Vec<char>>)
    ensures
        match r {
            Some(v) => constant_name_s(code@) == Some(v@),
            None => constant_name_s(code@) is None,
        },
{
    if vec_eq_str(code, "\\T") {
        Some(lit("τ (tau)"))
    } else if vec_eq_str(code, "τ") {
        Some(lit("τ (tau)"))
    } else if vec_eq_str(code, "\\P") {
        Some(lit("π (pi)"))
    } else if vec_eq_str(code, "π") {
        Some(lit("π (pi)"))
    } else if vec_eq_str(code, "\\G") {
        Some(lit("φ (phi)"))
    } else if vec_eq_str(code, "φ") {
        Some(lit("φ (phi)"))
    } else {
        None
    }
}

/// The derived-construction prefix matching the head of `t`, if any,
/// together with the rest of `t` after the prefix and its colon.
/// Candidates are tried longest prefix first, so a short code never
/// shadows a longer one.
pub open spec fn derived_construction_s(t: Seq<char>) -> Option<(Seq<char>, Seq<char>)> {
    if starts_with_s(t, "CCO:"@) {
        Some(("circumcenter"@, t.skip(4)))
    } else if starts_with_s(t, "ICO:"@) {
        Some(("incenter"@, t.skip(4)))
    } else if starts_with_s(t, "EAB:"@) {
        Some(("exterior angle bisector"@, t.skip(4)))
    } else if starts_with_s(t, "ECO:"@) {
        Some(("excenter"@, t.skip(4)))
    } else if starts_with_s(t, "PB:"@) {
        Some(("perpendicular bisector"@, t.skip(3)))
    } else if starts_with_s(t, "CC:"@) {
        Some(("circumcircle"@, t.skip(3)))
    } else if starts_with_s(t, "AB:"@) {
        Some(("angle bisector"@, t.skip(3)))
    } else if starts_with_s(t, "IC:"@) {
        Some(("incircle"@, t.skip(3)))
    } else if starts_with_s(t, "EC:"@) {
        Some(("excircle"@, t.skip(3)))
    } else if starts_with_s(t, "MD:"@) {
        Some(("median"@, t.skip(3)))
    } else if starts_with_s(t, "CT:"@) {
        Some(("centroid"@, t.skip(3)))
    } else if starts_with_s(t, "PD:"@) {
        Some(("perpendicular"@, t.skip(3)))
    } else if starts_with_s(t, "OC:"@) {
        Some(("orthocenter"@, t.skip(3)))
    } else if starts_with_s(t, "9O:"@) {
        Some(("nine-point center"@, t.skip(3)))
    } else if starts_with_s(t, "9C:"@) {
        Some(("nine-point circle"@, t.skip(3)))
    } else if starts_with_s(t, "PL:"@) {
        Some(("parallel line"@, t.skip(3)))
    } else if starts_with_s(t, "TG:"@) {
        Some(("tangent line"@, t.skip(3)))
    } else if starts_with_s(t, "M:"@) {
        Some(("midpoint"@, t.skip(2)))
    } else {
        None
    }
}

/// Looks up the derived-construction prefix at the head of `t`.
pub fn derived_construction(t: &Vec<char>) -> (r: Option<(Vec<char>, Vec<char>)>)
    ensures
        match r {
            Some(p) => derived_construction_s(t@) == Some((p.0@, p.1@)),
            None => derived_construction_s(t@) is None,
        },
{
    let n = t.len();
    if starts_with_vec(t, &lit("CCO:")) {
        proof {
            reveal_strlit("CCO:");
        }
        Some((lit("circumcenter"), subvec(t, 4, n)))
    } else if starts_with_vec(t, &lit("ICO:")) {
        proof {
            reveal_strlit("ICO:");
        }
        Some((lit("incenter"), subvec(t, 4, n)))
    } else if starts_with_vec(t, &lit("EAB:")) {
        proof {
            reveal_strlit("EAB:");
        }
        Some((lit("exterior angle bisector"), subvec(t, 4, n)))
    } else if starts_with_vec(t, &lit("ECO:")) {
        proof {
            reveal_strlit("ECO:");
        }
        Some((lit("excenter"), subvec(t, 4, n)))
    } else if starts_with_vec(t, &lit("PB:")) {
        proof {
            reveal_strlit("PB:");
        }
        Some((lit("perpendicular bisector"), subvec(t, 3, n)))
    } else if starts_with_vec(t, &lit("CC:")) {
        proof {
            reveal_strlit("CC:");
        }
        Some((lit("circumcircle"), subvec(t, 3, n)))
    } else if starts_with_vec(t, &lit("AB:")) {
        proof {
            reveal_strlit("AB:");
        }
        Some((lit("angle bisector"), subvec(t, 3, n)))
    } else if starts_with_vec(t, &lit("IC:")) {
        proof {
            reveal_strlit("IC:");
        }
        Some((lit("incircle"), subvec(t, 3, n)))
    } else if starts_with_vec(t, &lit("EC:")) {
        proof {
            reveal_strlit("EC:");
        }
        Some((lit("excircle"), subvec(t, 3, n)))
    } else if starts_with_vec(t, &lit("MD:")) {
        proof {
            reveal_strlit("MD:");
        }
        Some((lit("median"), subvec(t, 3, n)))
    } else if starts_with_vec(t, &lit("CT:")) {
        proof {
            reveal_strlit("CT:");
        }
        Some((lit("centroid"), subvec(t, 3, n)))
    } else if starts_with_vec(t, &lit("PD:")) {
        proof {
            reveal_strlit("PD:");
        }
        Some((lit("perpendicular"), subvec(t, 3, n)))
    } else if starts_with_vec(t, &lit("OC:")) {
        proof {
            reveal_strlit("OC:");
        }
        Some((lit("orthocenter"), subvec(t, 3, n)))
    } else if starts_with_vec(t, &lit("9O:")) {
        proof {
            reveal_strlit("9O:");
        }
        Some((lit("nine-point center"), subvec(t, 3, n)))
    } else if starts_with_vec(t, &lit("9C:")) {
        proof {
            reveal_strlit("9C:");
        }
        Some((lit("nine-point circle"), subvec(t, 3, n)))
    } else if starts_with_vec(t, &lit("PL:")) {
        proof {
            reveal_strlit("PL:");
        }
        Some((lit("parallel line"), subvec(t, 3, n)))
    } else if starts_with_vec(t, &lit("TG:")) {
        proof {
            reveal_strlit("TG:");
        }
        Some((lit("tangent line"), subvec(t, 3, n)))
    } else if starts_with_vec(t, &lit("M:")) {
        proof {
            reveal_strlit("M:");
        }
        Some((lit("midpoint"), subvec(t, 2, n)))
    } else {
        None
    }
}

} // verus!
