use genjudge::verdict::comparison_verdict;
use genjudge::verdict::folded_is_true_token;

#[test]
fn exact_token_passes() {
    assert!(comparison_verdict("true"));
}

#[test]
fn case_variants_pass_after_folding() {
    assert!(comparison_verdict("True"));
    assert!(comparison_verdict("TRUE"));
    assert!(comparison_verdict("tRuE"));
}

#[test]
fn near_misses_fail() {
    assert!(!comparison_verdict("true."));
    assert!(!comparison_verdict(" true "));
    assert!(!comparison_verdict("true\n"));
    assert!(!comparison_verdict("truth"));
    assert!(!comparison_verdict(""));
}

#[test]
fn negative_replies_fail() {
    assert!(!comparison_verdict("false"));
    assert!(!comparison_verdict("False"));
}

#[test]
fn folded_token_comparison_is_exact() {
    assert!(folded_is_true_token(&String::from("true")));
    assert!(!folded_is_true_token(&String::from("True")));
    assert!(!folded_is_true_token(&String::from("true ")));
}
