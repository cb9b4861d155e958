use gslc::translator::Translator;

#[test]
fn step_mode_numbers_each_statement() {
    let t = Translator::new();
    assert_eq!(t.pronounce("P:A/S:AB", true), "1. p kuh a\n2. s kuh a b");
}

#[test]
fn step_mode_consumes_the_wrapper_silently() {
    let t = Translator::new();
    assert_eq!(t.pronounce("\\\\P:A/S:AB\\\\", true), "1. p kuh a\n2. s kuh a b");
}

#[test]
fn step_mode_without_separator_still_numbers_the_line() {
    let t = Translator::new();
    assert_eq!(t.pronounce("P:A", true), "1. p kuh a");
}

#[test]
fn normal_mode_pronounces_wrapper_and_separator() {
    let t = Translator::new();
    assert_eq!(t.pronounce("\\\\P:A/S:AB\\\\", false), "uh p kuh a mn s kuh a b uh");
}

#[test]
fn whitespace_is_stripped_before_pronouncing() {
    let t = Translator::new();
    assert_eq!(t.pronounce(" P : A ", true), "1. p kuh a");
    assert_eq!(t.pronounce("P :\nA", false), "p kuh a");
}

#[test]
fn double_dot_is_a_digraph() {
    let t = Translator::new();
    assert_eq!(t.pronounce("A..B", false), "a duh-duh b");
    assert_eq!(t.pronounce("A.B", false), "a duh b");
}

#[test]
fn punctuation_syllables() {
    let t = Translator::new();
    assert_eq!(t.pronounce("P:X.AB|X*R", false), "p kuh x duh a b shuh x xing r");
    assert_eq!(t.pronounce("x", false), "ix");
    assert_eq!(t.pronounce("[AB]", false), "area a b");
    assert_eq!(t.pronounce("(AB)", false), "pairim a b");
    assert_eq!(t.pronounce("A=B;C,D_E!F?", false), "a eh b suh c muh d by e not f kwuh");
    assert_eq!(t.pronounce("aq l c w", false), "arc sect line circ ray");
    assert_eq!(t.pronounce("∠A~B≅C∥D⊥E", false), "ang a sim b cong c pall d perp e");
}

#[test]
fn unmapped_characters_echo() {
    let t = Translator::new();
    assert_eq!(t.pronounce("3+4", false), "3+4");
}

#[test]
fn step_labels_reach_two_digits() {
    let t = Translator::new();
    assert_eq!(
        t.pronounce("A/A/A/A/A/A/A/A/A/A", true),
        "1. a\n2. a\n3. a\n4. a\n5. a\n6. a\n7. a\n8. a\n9. a\n10. a"
    );
}

#[test]
fn trailing_separator_makes_an_empty_numbered_step() {
    let t = Translator::new();
    assert_eq!(t.pronounce("P:A/", true), "1. p kuh a\n2.");
}
