use gslc::tables::{property_name, relationship_name, theorem_name, constant_name,
    derived_construction};

fn chars(s: &str) -> Vec<char> {
    s.chars().collect()
}

fn text(v: &[char]) -> String {
    v.iter().collect()
}

#[test]
fn property_codes() {
    assert_eq!(property_name(&chars("R")).map(|v| text(&v)), Some("regular".to_string()));
    assert_eq!(property_name(&chars("CV")).map(|v| text(&v)), Some("convex".to_string()));
    assert_eq!(property_name(&chars("CC")).map(|v| text(&v)), Some("concave".to_string()));
    assert_eq!(property_name(&chars("EQ")).map(|v| text(&v)), Some("equilateral".to_string()));
    assert_eq!(property_name(&chars("C")).map(|v| text(&v)), Some("cyclic".to_string()));
    assert_eq!(property_name(&chars("ZZ")), None);
}

#[test]
fn relationship_codes() {
    assert_eq!(relationship_name(&chars("S")).map(|v| text(&v)), Some("collinear".to_string()));
    assert_eq!(relationship_name(&chars("P")).map(|v| text(&v)), Some("parallel".to_string()));
    assert_eq!(relationship_name(&chars("∥")).map(|v| text(&v)), Some("parallel".to_string()));
    assert_eq!(
        relationship_name(&chars("PR")).map(|v| text(&v)),
        Some("perpendicular".to_string())
    );
    assert_eq!(relationship_name(&chars("⊥")).map(|v| text(&v)),
        Some("perpendicular".to_string()));
    assert_eq!(relationship_name(&chars("~")).map(|v| text(&v)), Some("similar".to_string()));
    assert_eq!(relationship_name(&chars("≅")).map(|v| text(&v)), Some("congruent".to_string()));
    assert_eq!(relationship_name(&chars("ZZ")), None);
}

#[test]
fn theorem_codes() {
    assert_eq!(
        theorem_name(&chars("_PY")).map(|v| text(&v)),
        Some("Pythagorean Theorem".to_string())
    );
    assert_eq!(theorem_name(&chars("_9C")).map(|v| text(&v)),
        Some("Nine-Point Circle".to_string()));
    assert_eq!(
        theorem_name(&chars("_SSS")).map(|v| text(&v)),
        Some("SSS Similarity".to_string())
    );
    assert_eq!(
        theorem_name(&chars("_SSC")).map(|v| text(&v)),
        Some("SSS Congruence".to_string())
    );
    assert_eq!(theorem_name(&chars("_ZZ")), None);
}

#[test]
fn constant_codes() {
    assert_eq!(constant_name(&chars("\\T")).map(|v| text(&v)), Some("τ (tau)".to_string()));
    assert_eq!(constant_name(&chars("π")).map(|v| text(&v)), Some("π (pi)".to_string()));
    assert_eq!(constant_name(&chars("φ")).map(|v| text(&v)), Some("φ (phi)".to_string()));
    assert_eq!(constant_name(&chars("e")), None);
}

#[test]
fn derived_prefixes_match_longest_first() {
    let cco = derived_construction(&chars("CCO:ABC")).unwrap();
    assert_eq!(text(&cco.0), "circumcenter");
    assert_eq!(text(&cco.1), "ABC");
    let cc = derived_construction(&chars("CC:ABC")).unwrap();
    assert_eq!(text(&cc.0), "circumcircle");
    assert_eq!(text(&cc.1), "ABC");
    let m = derived_construction(&chars("M:AB")).unwrap();
    assert_eq!(text(&m.0), "midpoint");
    assert_eq!(text(&m.1), "AB");
    assert_eq!(derived_construction(&chars("S:AB")), None);
    assert_eq!(derived_construction(&chars("M")), None);
}
