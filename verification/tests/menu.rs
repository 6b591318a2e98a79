use fibonacci::generator::generate_by_count;
use fibonacci::menu::{
    menu_action, validate_max_value, validate_term_count, CountValidation, MenuAction, MAX_TERMS,
};

#[test]
fn menu_choices_map_to_actions() {
    assert_eq!(menu_action(1), MenuAction::ByCount);
    assert_eq!(menu_action(2), MenuAction::UpToMax);
    assert_eq!(menu_action(3), MenuAction::WithStats);
    assert_eq!(menu_action(4), MenuAction::Columns);
    assert_eq!(menu_action(0), MenuAction::Fallback);
    assert_eq!(menu_action(5), MenuAction::Fallback);
    assert_eq!(menu_action(usize::MAX), MenuAction::Fallback);
}

#[test]
fn zero_terms_are_rejected() {
    assert_eq!(validate_term_count(0), CountValidation::Rejected);
}

#[test]
fn counts_in_range_are_accepted() {
    assert_eq!(validate_term_count(1), CountValidation::Accepted(1));
    assert_eq!(validate_term_count(10), CountValidation::Accepted(10));
    assert_eq!(validate_term_count(92), CountValidation::Accepted(92));
}

#[test]
fn oversized_counts_are_clamped() {
    assert_eq!(validate_term_count(93), CountValidation::Clamped(MAX_TERMS));
    assert_eq!(validate_term_count(1000), CountValidation::Clamped(MAX_TERMS));
}

#[test]
fn clamped_count_generates_without_overflow() {
    let count = match validate_term_count(93) {
        CountValidation::Clamped(c) => c,
        _ => panic!("a count of 93 must be clamped"),
    };
    assert_eq!(count, 92);
    let r = generate_by_count(count, false, false);
    assert_eq!(r.terms.len(), 92);
    assert_eq!(r.terms[91], 4660046610375530309);
}

#[test]
fn max_value_must_be_non_negative() {
    assert!(validate_max_value(0));
    assert!(validate_max_value(10));
    assert!(validate_max_value(i64::MAX));
    assert!(!validate_max_value(-1));
    assert!(!validate_max_value(i64::MIN));
}
