//! Validation from raw text: the parser boundary, the vocabulary builder,
//! and whole-file validation.

use item_validator::{ParseError, build_item_validation_sets, validate_item_contents};

const LISTS: &str = "\
Item Categories:
- Weapon
- Iron
- Weapon
Item Classifications:
- Materials
- Equipment
Elements:
- Fire
- Ice
Gathering Tools:
- Axe
";

fn has_fail(r: &item_validator::ValidationResults, m: &str) -> bool {
    r.fail_messages.iter().any(|x| x == m)
}

#[test]
fn vocabulary_sets_are_read_from_the_master_list() {
    let sets = build_item_validation_sets(LISTS).unwrap();
    assert_eq!(sets.categories, vec!["Weapon".to_string(), "Iron".to_string()]);
    assert_eq!(sets.materials, vec!["Weapon".to_string(), "Iron".to_string()]);
    assert_eq!(sets.classifications, vec!["Materials".to_string(), "Equipment".to_string()]);
    assert_eq!(sets.elements, vec!["Fire".to_string(), "Ice".to_string()]);
    assert_eq!(sets.gathering_tools, vec!["Axe".to_string()]);
}

#[test]
fn missing_vocabulary_key_yields_an_empty_set() {
    let sets = build_item_validation_sets("Item Categories:\n- Weapon\n").unwrap();
    assert!(sets.elements.is_empty());
    assert!(sets.gathering_tools.is_empty());
    assert_eq!(sets.categories, vec!["Weapon".to_string()]);
}

#[test]
fn unparseable_master_list_is_a_parse_error() {
    assert_eq!(build_item_validation_sets("a: [1, 2").unwrap_err(), ParseError);
}

#[test]
fn valid_gathered_item_text_passes() {
    let sets = build_item_validation_sets(LISTS).unwrap();
    let item = "\
Name: Ember Blade
Item Number: 1
Level: 3
Category:
- Weapon
Classifications:
- Materials
Element:
- Fire
";
    let r = validate_item_contents(item, &sets).unwrap();
    assert!(r.valid, "unexpected failures: {:?}", r.fail_messages);
    assert!(r.pass_messages.iter().any(|m| m == "Name is present: Ember Blade"));
}

#[test]
fn unknown_category_in_text_is_reported() {
    let sets = build_item_validation_sets(LISTS).unwrap();
    let item = "\
Name: Ember Blade
Item Number: 1
Level: 3
Category:
- Unknown
Classifications:
- Materials
Element:
- Fire
";
    let r = validate_item_contents(item, &sets).unwrap();
    assert!(!r.valid);
    assert!(has_fail(&r, "Category: Unknown is an unknown value"));
}

#[test]
fn synthesized_item_text_is_checked_in_depth() {
    let sets = build_item_validation_sets(LISTS).unwrap();
    let item = "\
Name: Ember Blade
Item Number: 1
Level: 3
Category:
- Weapon
Classifications:
- Equipment
Element:
- Fire
Materials:
- Iron: 2
Synthesis:
  Required Materials: 2
  Material Loops:
  - IronLoop:
      Position: 1
      Distance: 5
      Material: Iron
  - EmberLoop:
      Position: 2
      Distance: 3
      Linked From Position: 1
      Material: Iron
";
    let r = validate_item_contents(item, &sets).unwrap();
    assert!(!r.valid);
    assert!(has_fail(
        &r,
        "Synthesis: loop 'EmberLoop' position 2: linked to loop with same or higher distance value",
    ));
}

#[test]
fn unparseable_item_text_is_a_parse_error() {
    let sets = build_item_validation_sets(LISTS).unwrap();
    assert!(validate_item_contents("{ unclosed", &sets).is_err());
}

#[test]
fn empty_item_text_is_a_parse_error() {
    let sets = build_item_validation_sets(LISTS).unwrap();
    assert!(validate_item_contents("", &sets).is_err());
}
