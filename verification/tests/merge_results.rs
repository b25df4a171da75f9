//! The merge operation on validation results: associativity, identity, and
//! the validity flag.

use item_validator::ValidationResults;

fn strings(values: &[&str]) -> Vec<String> {
    values.iter().map(|v| v.to_string()).collect()
}

fn result_of(valid: bool, pass: &[&str], fail: &[&str]) -> ValidationResults {
    ValidationResults { valid, pass_messages: strings(pass), fail_messages: strings(fail) }
}

fn assert_same(a: &ValidationResults, b: &ValidationResults) {
    assert_eq!(a.valid, b.valid);
    assert_eq!(a.pass_messages, b.pass_messages);
    assert_eq!(a.fail_messages, b.fail_messages);
}

#[test]
fn merge_is_associative() {
    let a = result_of(true, &["a1", "a2"], &[]);
    let b = result_of(false, &["b1"], &["b2"]);
    let c = result_of(true, &[], &["c1"]);

    let mut left = result_of(true, &["a1", "a2"], &[]);
    left.combine(result_of(false, &["b1"], &["b2"]));
    left.combine(result_of(true, &[], &["c1"]));

    let mut right_inner = result_of(false, &["b1"], &["b2"]);
    right_inner.combine(result_of(true, &[], &["c1"]));
    let mut right = result_of(true, &["a1", "a2"], &[]);
    right.combine(right_inner);

    assert_same(&left, &right);
    let _ = (a, b, c);
}

#[test]
fn merge_identity_left() {
    let mut merged = ValidationResults::new();
    merged.combine(result_of(false, &["p"], &["f"]));
    assert_same(&merged, &result_of(false, &["p"], &["f"]));
}

#[test]
fn merge_identity_right() {
    let mut merged = result_of(false, &["p"], &["f"]);
    merged.combine(ValidationResults::new());
    assert_same(&merged, &result_of(false, &["p"], &["f"]));
}

#[test]
fn merge_combines_in_order() {
    let mut merged = result_of(true, &["first pass"], &["first fail"]);
    merged.combine(result_of(false, &["second pass"], &["second fail"]));
    assert!(!merged.valid);
    assert_eq!(merged.pass_messages, strings(&["first pass", "second pass"]));
    assert_eq!(merged.fail_messages, strings(&["first fail", "second fail"]));
}

#[test]
fn new_result_is_valid_and_empty() {
    let r = ValidationResults::new();
    assert!(r.valid);
    assert!(r.pass_messages.is_empty());
    assert!(r.fail_messages.is_empty());
}
