use gslc::translator::Translator;

#[test]
fn end_to_end_points_and_segment() {
    let t = Translator::new();
    let out = t.translate("\\\\P:A,B/S:AB\\\\");
    assert_eq!(out, vec!["Construct points A,B.".to_string(), "Connect segment AB.".to_string()]);
}

#[test]
fn end_to_end_polygon_and_regular() {
    let t = Translator::new();
    let out = t.translate("\\\\J:ABC/R:3;AB=ABC\\\\");
    assert_eq!(
        out,
        vec![
            "Construct polygon ABC.".to_string(),
            "Construct equilateral triangle ABC with side AB.".to_string()
        ]
    );
}

#[test]
fn area_assignment_and_query() {
    let t = Translator::new();
    assert_eq!(t.translate_statement("[ABC]=20"), "Let the area of ABC be 20.");
    assert_eq!(t.translate_statement("[ABC]?"), "What is the area of ABC?");
}

#[test]
fn inequality_substitution() {
    let t = Translator::new();
    assert_eq!(t.translate_statement("AB!=CD"), "AB does not equal CD");
    assert_eq!(t.translate_statement("AB≠CD"), "AB does not equal CD");
    assert_eq!(t.translate_statement("AB>=CD"), "AB is greater than or equal to CD");
    assert_eq!(t.translate_statement("AB≤CD"), "AB is less than or equal to CD");
}

#[test]
fn splitting_ignores_surrounding_whitespace() {
    let t = Translator::new();
    let out = t.translate("  \\\\A/B/C\\\\ \n");
    assert_eq!(out, vec!["A".to_string(), "B".to_string(), "C".to_string()]);
}

#[test]
fn splitting_drops_empty_statements() {
    let t = Translator::new();
    let out = t.translate("\\\\A//B\\\\");
    assert_eq!(out, vec!["A".to_string(), "B".to_string()]);
}

#[test]
fn bare_wrapper_is_echoed_not_a_panic() {
    let t = Translator::new();
    let out = t.translate("\\\\");
    assert_eq!(out, vec!["\\\\".to_string()]);
}

#[test]
fn empty_input_translates_to_nothing() {
    let t = Translator::new();
    let out = t.translate("");
    assert_eq!(out, Vec::<String>::new());
    assert_eq!(t.translate_statement(""), "");
}

#[test]
fn proof_markers() {
    let t = Translator::new();
    assert_eq!(t.translate_statement("\\p:S:AB"), "We will prove: Connect segment AB.");
    assert_eq!(
        t.translate_statement("\\pC:S:AB"),
        "We will prove by contradiction: Connect segment AB."
    );
    assert_eq!(t.translate_statement("\\q"), "And that is what was to be shown.");
    assert_eq!(t.translate_statement("□"), "And that is what was to be shown.");
    assert_eq!(t.translate_statement("\\qC"), "Achieving a contradiction.");
    assert_eq!(t.translate_statement("↯"), "Achieving a contradiction.");
    assert_eq!(t.translate_statement("\\bc"), "Because");
    assert_eq!(t.translate_statement("∵"), "Because");
    assert_eq!(t.translate_statement("\\th"), "Therefore");
    assert_eq!(t.translate_statement("∴"), "Therefore");
}

#[test]
fn nested_proof_markers_translate_at_depth() {
    let t = Translator::new();
    let mut input = String::from("S:AB");
    let mut expected = String::from("Connect segment AB.");
    for _ in 0..50 {
        input = format!("\\p:{}", input);
        expected = format!("We will prove: {}", expected);
    }
    assert_eq!(t.translate_statement(&input), expected);
}

#[test]
fn proof_marker_wrapping_casework() {
    let t = Translator::new();
    assert_eq!(
        t.translate_statement("\\p:S:AB<<(x;y)>>"),
        "We will prove: Connect segment AB.\nBegin casework: Case 1: if x, then y"
    );
}

#[test]
fn logical_connectives() {
    let t = Translator::new();
    assert_eq!(t.translate_statement("A||B"), "A or B");
    assert_eq!(t.translate_statement("A∨B"), "A or B");
    assert_eq!(t.translate_statement("A&&B"), "A and B");
    assert_eq!(t.translate_statement("A∧B"), "A and B");
    assert_eq!(t.translate_statement("x=>y"), "x implies y");
    assert_eq!(t.translate_statement("x⊃y"), "x implies y");
}

#[test]
fn quantifiers_pass_remainder_through() {
    let t = Translator::new();
    assert_eq!(t.translate_statement("|Ax"), "For all x");
    assert_eq!(t.translate_statement("∀x"), "For all x");
    assert_eq!(t.translate_statement("|Ey"), "There exists y");
    assert_eq!(t.translate_statement("∃y"), "There exists y");
}

#[test]
fn casework_statement() {
    let t = Translator::new();
    assert_eq!(
        t.translate_statement("S:AB<<(x;y),(z;w)>>"),
        "Connect segment AB.\nBegin casework: Case 1: if x, then y; Case 2: if z, then w"
    );
    assert_eq!(t.translate_statement("S:AB<<(x;y)"), "Connect segment AB.\nBegin casework.");
    assert_eq!(t.translate_statement(">>"), "End casework.");
}

#[test]
fn casework_interior() {
    let t = Translator::new();
    assert_eq!(
        t.translate_casework("(x;y),(z;w)"),
        "Case 1: if x, then y; Case 2: if z, then w"
    );
}

#[test]
fn casework_keeps_position_numbers_of_dropped_clauses() {
    let t = Translator::new();
    assert_eq!(
        t.translate_casework("(a;b),(c),(d;e)"),
        "Case 1: if a, then b; Case 3: if d, then e"
    );
}

#[test]
fn casework_numbers_reach_two_digits() {
    let t = Translator::new();
    let ten = "(a;b),(a;b),(a;b),(a;b),(a;b),(a;b),(a;b),(a;b),(a;b),(a;b)";
    let out = t.translate_casework(ten);
    assert!(out.starts_with("Case 1: if a, then b; "));
    assert!(out.ends_with("Case 10: if a, then b"));
}

#[test]
fn derived_constructions_prefer_longest_prefix() {
    let t = Translator::new();
    assert_eq!(t.translate_statement("M:AB"), "Construct the midpoint of AB.");
    assert_eq!(t.translate_statement("MD:AB"), "Construct the median of AB.");
    assert_eq!(t.translate_statement("CC:ABC"), "Construct the circumcircle of ABC.");
    assert_eq!(t.translate_statement("CCO:ABC"), "Construct the circumcenter of ABC.");
    assert_eq!(t.translate_statement("IC:ABC"), "Construct the incircle of ABC.");
    assert_eq!(t.translate_statement("ICO:ABC"), "Construct the incenter of ABC.");
    assert_eq!(t.translate_statement("EC:ABC"), "Construct the excircle of ABC.");
    assert_eq!(t.translate_statement("ECO:ABC"), "Construct the excenter of ABC.");
    assert_eq!(t.translate_statement("EAB:ABC"), "Construct the exterior angle bisector of ABC.");
    assert_eq!(t.translate_statement("9C:ABC"), "Construct the nine-point circle of ABC.");
    assert_eq!(t.translate_statement("PB:AB"), "Construct the perpendicular bisector of AB.");
}

#[test]
fn handle_derived_construction_returns_nothing_for_other_statements() {
    let t = Translator::new();
    assert_eq!(
        t.handle_derived_construction("M:AB"),
        Some("Construct the midpoint of AB.".to_string())
    );
    assert_eq!(t.handle_derived_construction("S:AB"), None);
}

#[test]
fn primitive_constructions() {
    let t = Translator::new();
    assert_eq!(t.translate_statement("S:AB"), "Connect segment AB.");
    assert_eq!(t.translate_statement("L:AB"), "Connect line AB.");
    assert_eq!(t.translate_statement("W:AB"), "Construct ray AB.");
    assert_eq!(t.translate_statement("J:ABCD"), "Construct polygon ABCD.");
    assert_eq!(t.translate_statement("G:{y=x}"), "Graph the function y=x.");
}

#[test]
fn point_construction_forms() {
    let t = Translator::new();
    assert_eq!(t.handle_point_construction("A,B,C"), "Construct points A,B,C.");
    assert_eq!(
        t.handle_point_construction("P=ABxCD"),
        "Let point P be the intersection of segment AB and segment CD."
    );
    assert_eq!(
        t.handle_point_construction("Q=wABxlCD"),
        "Let point Q be the intersection of ray AB and line CD."
    );
    assert_eq!(t.handle_point_construction("A{3}"), "Let point A be at coordinates 3.");
    assert_eq!(t.handle_point_construction("X..ABC"), "Construct point X in the region ABC.");
    assert_eq!(t.handle_point_construction("X.AB"), "Construct point X on AB.");
    assert_eq!(t.handle_point_construction("A"), "Construct point A.");
}

#[test]
fn point_on_object_with_conditions() {
    let t = Translator::new();
    assert_eq!(
        t.translate_statement("P:X.AB|X*R"),
        "Construct point X on AB such that X is regular."
    );
    assert_eq!(
        t.translate_statement("P:X.AB|X*R,[XY]=20"),
        "Construct point X on AB such that X is regular, the area of XY is 20."
    );
    assert_eq!(
        t.translate_statement("P:X.cO|A*+"),
        "Construct point X on cO such that A goes clockwise."
    );
    assert_eq!(
        t.translate_statement("P:X.cO|A*-"),
        "Construct point X on cO such that A goes counterclockwise."
    );
    assert_eq!(
        t.translate_statement("P:X.AB|-u"),
        "Construct point X on AB such that -u."
    );
}

#[test]
fn object_descriptions() {
    let t = Translator::new();
    assert_eq!(t.get_object_description("wAB"), "ray AB");
    assert_eq!(t.get_object_description("lAB"), "line AB");
    assert_eq!(t.get_object_description("cO"), "circle O");
    assert_eq!(t.get_object_description("AB"), "segment AB");
}

#[test]
fn parse_conditions_classifies_each_clause() {
    let t = Translator::new();
    let out = t.parse_conditions("X*R, AB;CD*S ,[XY]=20,R:4;AB=WXYZ,-u");
    assert_eq!(
        out,
        vec![
            "X is regular".to_string(),
            "AB;CD is collinear".to_string(),
            "the area of XY is 20".to_string(),
            "square WXYZ with side AB".to_string(),
            "-u".to_string()
        ]
    );
}

#[test]
fn unknown_codes_echo_verbatim() {
    let t = Translator::new();
    let out = t.parse_conditions("X*QQ");
    assert_eq!(out, vec!["X is QQ".to_string()]);
    assert_eq!(t.handle_property_question("ABC*ZZ?"), "Is ABC ZZ?");
    assert_eq!(t.translate_statement("_QQQ"), "_QQQ");
}

#[test]
fn circle_construction_forms() {
    let t = Translator::new();
    assert_eq!(
        t.handle_circle_construction("A;B;C"),
        "Construct a circle through points A, B, and C."
    );
    assert_eq!(
        t.handle_circle_construction("O;5"),
        "Construct a circle with center O and radius 5."
    );
    assert_eq!(
        t.handle_circle_construction("O;2.5"),
        "Construct a circle with center O and radius 2.5."
    );
    assert_eq!(
        t.handle_circle_construction("O;B"),
        "Construct a circle with center O passing through point B."
    );
    assert_eq!(t.handle_circle_construction("=K"), "Construct circle K.");
    assert_eq!(
        t.handle_circle_construction("A"),
        "Construct a circle passing through point A."
    );
    assert_eq!(
        t.handle_circle_construction("A;B;C;D"),
        "Construct circle with parameters A;B;C;D."
    );
}

#[test]
fn regular_polygon_names() {
    let t = Translator::new();
    assert_eq!(t.translate_regular_polygon("3;AB=ABC"), "equilateral triangle ABC with side AB");
    assert_eq!(t.translate_regular_polygon("4;AB=WXYZ"), "square WXYZ with side AB");
    assert_eq!(t.translate_regular_polygon("5;AB=V"), "regular pentagon V with side AB");
    assert_eq!(t.translate_regular_polygon("6;AB=H"), "regular hexagon H with side AB");
    assert_eq!(t.translate_regular_polygon("8;AB=O"), "regular octagon O with side AB");
    assert_eq!(t.translate_regular_polygon("7;AB=S"), "regular 7-gon S with side AB");
    assert_eq!(t.translate_regular_polygon("nonsense"), "nonsense");
}

#[test]
fn arc_statements() {
    let t = Translator::new();
    assert_eq!(t.translate_statement("aAB=5"), "Arc AB has length 5.");
    assert_eq!(t.translate_statement("aAB?"), "What is the length of arc AB?");
    assert_eq!(t.translate_statement("aAB!=aCD"), "aAB does not equal aCD");
    assert_eq!(t.handle_arc("<aAB=90"), "Arc <aAB has measure 90 degrees.");
}

#[test]
fn sector_statements() {
    let t = Translator::new();
    assert_eq!(t.translate_statement("qAB=30"), "The area of sector AB is 30.");
    assert_eq!(t.translate_statement("qAB?"), "What is the area of sector AB?");
}

#[test]
fn perimeter_statements() {
    let t = Translator::new();
    assert_eq!(t.translate_statement("(ABC)=30"), "Let the perimeter of ABC be 30.");
    assert_eq!(t.translate_statement("(ABC)?"), "What is the perimeter of ABC?");
}

#[test]
fn angle_statements() {
    let t = Translator::new();
    assert_eq!(t.translate_statement("<ABC=90"), "Angle ABC measures 90 degrees.");
    assert_eq!(t.translate_statement("∠ABC=45"), "Angle ABC measures 45 degrees.");
    assert_eq!(t.translate_statement("<ABC?"), "What is the measure of angle ABC?");
    assert_eq!(t.translate_statement("<ABC"), "Angle ABC");
}

#[test]
fn questions_and_proof_inquiries() {
    let t = Translator::new();
    assert_eq!(t.translate_statement("AB?"), "What is AB?");
    assert_eq!(t.translate_statement("AB=CD\\?"), "Prove that AB=CD.");
    assert_eq!(t.translate_statement("ABC*EQ?"), "Is ABC equilateral?");
    assert_eq!(t.handle_property_question("AB*C;D?"), "Are AB C;D?");
    assert_eq!(t.handle_property_question("AB;CD*P?"), "Is AB;CD P?");
}

#[test]
fn unmatched_statements_echo() {
    let t = Translator::new();
    assert_eq!(t.translate_statement("hello"), "hello");
    assert_eq!(t.translate_statement("  S:AB  "), "Connect segment AB.");
}
