//! The primitive field checks: key presence, scalar value membership, and
//! list membership.

use item_validator::DocumentNode;
use item_validator::field_checks::{
    validate_key, validate_key_and_value, validate_list, validate_list_values,
};

fn text(v: &str) -> DocumentNode {
    DocumentNode::Text(v.to_string())
}

fn entry(key: &str, value: DocumentNode) -> (DocumentNode, DocumentNode) {
    (text(key), value)
}

fn mapping(entries: Vec<(DocumentNode, DocumentNode)>) -> DocumentNode {
    DocumentNode::Mapping(entries)
}

fn vocab(values: &[&str]) -> Vec<String> {
    values.iter().map(|v| v.to_string()).collect()
}

fn has_fail(r: &item_validator::ValidationResults, m: &str) -> bool {
    r.fail_messages.iter().any(|x| x == m)
}

fn has_pass(r: &item_validator::ValidationResults, m: &str) -> bool {
    r.pass_messages.iter().any(|x| x == m)
}

#[test]
fn missing_required_key_fails() {
    let doc = mapping(vec![]);
    let r = validate_key(&doc, "Name", true);
    assert!(!r.valid);
    assert_eq!(r.fail_messages, vec!["'Name' key is missing".to_string()]);
    assert!(r.pass_messages.is_empty());
}

#[test]
fn missing_optional_key_goes_unremarked() {
    let doc = mapping(vec![]);
    let r = validate_key(&doc, "Linked From Position", false);
    assert!(r.valid);
    assert!(r.pass_messages.is_empty());
    assert!(r.fail_messages.is_empty());
}

#[test]
fn present_string_key_passes_with_value() {
    let doc = mapping(vec![entry("Name", text("Ember Blade"))]);
    let r = validate_key(&doc, "Name", true);
    assert!(r.valid);
    assert_eq!(r.pass_messages, vec!["Name is present: Ember Blade".to_string()]);
}

#[test]
fn present_integer_key_passes_with_value() {
    let doc = mapping(vec![entry("Level", DocumentNode::Integer(3))]);
    let r = validate_key(&doc, "Level", true);
    assert!(r.valid);
    assert_eq!(r.pass_messages, vec!["Level is present: 3".to_string()]);
}

#[test]
fn present_negative_integer_key_passes_with_value() {
    let doc = mapping(vec![entry("Level", DocumentNode::Integer(-12))]);
    let r = validate_key(&doc, "Level", true);
    assert!(r.valid);
    assert_eq!(r.pass_messages, vec!["Level is present: -12".to_string()]);
}

#[test]
fn extreme_integer_values_are_written_in_full() {
    let doc = mapping(vec![
        entry("Level", DocumentNode::Integer(i64::MIN)),
        entry("Item Number", DocumentNode::Integer(i64::MAX)),
    ]);
    let low = validate_key(&doc, "Level", true);
    assert_eq!(low.pass_messages, vec!["Level is present: -9223372036854775808".to_string()]);
    let high = validate_key(&doc, "Item Number", true);
    assert_eq!(high.pass_messages, vec!["Item Number is present: 9223372036854775807".to_string()]);
}

#[test]
fn present_other_shape_counts_as_present() {
    let doc = mapping(vec![entry("Category", DocumentNode::List(vec![]))]);
    let r = validate_key(&doc, "Category", true);
    assert!(r.valid);
    assert_eq!(r.pass_messages, vec!["Category is present".to_string()]);
}

#[test]
fn known_value_passes() {
    let doc = mapping(vec![entry("Material", text("Iron"))]);
    let r = validate_key_and_value(&doc, "Material", &vocab(&["Iron", "Wood"]), true);
    assert!(r.valid);
    assert_eq!(r.pass_messages, vec!["key Material: known value 'Iron'".to_string()]);
}

#[test]
fn unknown_value_fails() {
    let doc = mapping(vec![entry("Material", text("Gold"))]);
    let r = validate_key_and_value(&doc, "Material", &vocab(&["Iron"]), true);
    assert!(!r.valid);
    assert_eq!(
        r.fail_messages,
        vec!["key Material: unknown value 'Gold' (typo, or item file needed)".to_string()],
    );
}

#[test]
fn non_string_value_fails_the_value_check() {
    let doc = mapping(vec![entry("Material", DocumentNode::Integer(7))]);
    let r = validate_key_and_value(&doc, "Material", &vocab(&["Iron"]), true);
    assert!(!r.valid);
    assert_eq!(r.fail_messages, vec!["key Material: value is not a string".to_string()]);
}

#[test]
fn missing_optional_value_check_goes_unremarked() {
    let doc = mapping(vec![]);
    let r = validate_key_and_value(&doc, "Recipe", &vocab(&["Iron"]), false);
    assert!(r.valid);
    assert!(r.pass_messages.is_empty());
    assert!(r.fail_messages.is_empty());
}

#[test]
fn list_of_known_values_passes() {
    let doc = mapping(vec![entry(
        "Category",
        DocumentNode::List(vec![text("Weapon"), text("Tool")]),
    )]);
    let r = validate_list(&doc, "Category", &vocab(&["Weapon", "Tool"]), true);
    assert!(r.valid);
    assert!(has_pass(&r, "Category is present"));
    assert!(has_pass(&r, "Category values are known"));
}

#[test]
fn list_with_unknown_value_fails() {
    let doc = mapping(vec![entry("Category", DocumentNode::List(vec![text("Unknown")]))]);
    let r = validate_list(&doc, "Category", &vocab(&["Weapon"]), true);
    assert!(!r.valid);
    assert!(has_fail(&r, "Category: Unknown is an unknown value"));
    assert!(!has_pass(&r, "Category values are known"));
}

#[test]
fn quantity_map_elements_are_checked_by_key() {
    let doc = mapping(vec![entry(
        "Materials",
        DocumentNode::List(vec![mapping(vec![entry("Iron", DocumentNode::Integer(3))]), mapping(
            vec![entry("Mythril", DocumentNode::Integer(1))],
        )]),
    )]);
    let r = validate_list(&doc, "Materials", &vocab(&["Iron"]), true);
    assert!(!r.valid);
    assert!(has_fail(&r, "Materials: Mythril is an unknown value"));
    assert!(!has_fail(&r, "Materials: Iron is an unknown value"));
}

#[test]
fn missing_required_list_reports_only_the_missing_key() {
    let doc = mapping(vec![]);
    let r = validate_list(&doc, "Category", &vocab(&["Weapon"]), true);
    assert!(!r.valid);
    assert_eq!(r.fail_messages, vec!["'Category' key is missing".to_string()]);
}

#[test]
fn required_non_list_value_fails() {
    let doc = mapping(vec![entry("Category", text("Weapon"))]);
    let r = validate_list_values(&doc, "Category", &vocab(&["Weapon"]), true);
    assert!(!r.valid);
    assert_eq!(r.fail_messages, vec!["Category is not a list".to_string()]);
}

#[test]
fn optional_non_list_value_is_silently_accepted() {
    let doc = mapping(vec![entry("Unlock", text("Fire"))]);
    let r = validate_list_values(&doc, "Unlock", &vocab(&["Fire"]), false);
    assert!(r.valid);
    assert!(r.pass_messages.is_empty());
    assert!(r.fail_messages.is_empty());
}

#[test]
fn non_string_list_elements_are_ignored() {
    let doc = mapping(vec![entry(
        "Category",
        DocumentNode::List(vec![DocumentNode::Integer(5), text("Weapon")]),
    )]);
    let r = validate_list_values(&doc, "Category", &vocab(&["Weapon"]), true);
    assert!(r.valid);
    assert!(has_pass(&r, "Category values are known"));
}
