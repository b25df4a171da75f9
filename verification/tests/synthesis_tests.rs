//! The synthesis validator: the required-synthesis decision, the
//! material-loop checks, position uniqueness, and link-distance ordering.

use item_validator::{DocumentNode, ItemValidationSets};
use item_validator::synthesis::{
    should_have_synthesis, validate_loop_levels, validate_material_loop_contents,
    validate_material_loops, validate_synthesis, validate_unique_positions,
};

fn text(v: &str) -> DocumentNode {
    DocumentNode::Text(v.to_string())
}

fn entry(key: &str, value: DocumentNode) -> (DocumentNode, DocumentNode) {
    (text(key), value)
}

fn mapping(entries: Vec<(DocumentNode, DocumentNode)>) -> DocumentNode {
    DocumentNode::Mapping(entries)
}

fn vocab(values: &[&str]) -> Vec<String> {
    values.iter().map(|v| v.to_string()).collect()
}

fn sets(elements: &[&str], materials: &[&str]) -> ItemValidationSets {
    ItemValidationSets {
        elements: vocab(elements),
        categories: Vec::new(),
        classifications: Vec::new(),
        gathering_tools: Vec::new(),
        materials: vocab(materials),
    }
}

fn has_fail(r: &item_validator::ValidationResults, m: &str) -> bool {
    r.fail_messages.iter().any(|x| x == m)
}

fn has_pass(r: &item_validator::ValidationResults, m: &str) -> bool {
    r.pass_messages.iter().any(|x| x == m)
}

fn material_loop(name: &str, fields: Vec<(DocumentNode, DocumentNode)>) -> DocumentNode {
    mapping(vec![(text(name), mapping(fields))])
}

#[test]
fn materials_classification_needs_no_synthesis() {
    let doc = mapping(vec![entry(
        "Classifications",
        DocumentNode::List(vec![text("Materials")]),
    )]);
    assert!(!should_have_synthesis(&doc));
}

#[test]
fn other_classification_needs_synthesis() {
    let doc = mapping(vec![entry(
        "Classifications",
        DocumentNode::List(vec![text("Weapon")]),
    )]);
    assert!(should_have_synthesis(&doc));
}

#[test]
fn absent_classifications_needs_synthesis() {
    let doc = mapping(vec![]);
    assert!(should_have_synthesis(&doc));
}

#[test]
fn non_list_classifications_needs_synthesis() {
    let doc = mapping(vec![entry("Classifications", text("Materials"))]);
    assert!(should_have_synthesis(&doc));
}

#[test]
fn missing_synthesis_value_fails() {
    let r = validate_synthesis(&DocumentNode::Missing, &sets(&[], &[]));
    assert!(!r.valid);
    assert_eq!(r.fail_messages, vec!["Synthesis key is missing.".to_string()]);
}

#[test]
fn synthesis_without_required_materials_fails() {
    let synthesis = mapping(vec![entry("Material Loops", DocumentNode::List(vec![]))]);
    let r = validate_synthesis(&synthesis, &sets(&[], &[]));
    assert!(!r.valid);
    assert!(has_fail(&r, "Synthesis: 'Required Materials' key is missing"));
}

#[test]
fn synthesis_without_material_loops_fails() {
    let synthesis = mapping(vec![entry("Required Materials", DocumentNode::Integer(2))]);
    let r = validate_synthesis(&synthesis, &sets(&[], &[]));
    assert!(!r.valid);
    assert!(has_fail(&r, "Synthesis: Material Loops key is missing."));
    assert!(has_pass(&r, "Synthesis: Required Materials is present: 2"));
}

#[test]
fn material_loops_must_be_a_list() {
    let r = validate_material_loops(&text("oops"), &sets(&[], &[]));
    assert!(!r.valid);
    assert_eq!(r.fail_messages, vec!["Material Loops key is not a list.".to_string()]);
}

#[test]
fn non_mapping_loop_is_malformed() {
    let r = validate_material_loop_contents(&text("oops"), &sets(&[], &[]));
    assert!(!r.valid);
    assert_eq!(r.fail_messages, vec!["Malformed material loop".to_string()]);
}

#[test]
fn duplicate_positions_report_exactly_one_failure() {
    let loops = vec![
        material_loop("A", vec![
            entry("Position", DocumentNode::Integer(1)),
            entry("Distance", DocumentNode::Integer(2)),
        ]),
        material_loop("B", vec![
            entry("Position", DocumentNode::Integer(1)),
            entry("Distance", DocumentNode::Integer(4)),
        ]),
    ];
    let r = validate_unique_positions(&loops);
    assert!(!r.valid);
    assert_eq!(r.fail_messages, vec!["loop 'B' has duplicate position value: 1".to_string()]);
    assert!(has_pass(&r, "loop 'A' has new position value: 1"));
}

#[test]
fn duplicate_positions_inside_one_mapping_are_reported() {
    let loops = vec![mapping(vec![
        (text("A"), mapping(vec![
            entry("Position", DocumentNode::Integer(4)),
            entry("Distance", DocumentNode::Integer(1)),
        ])),
        (text("B"), mapping(vec![
            entry("Position", DocumentNode::Integer(4)),
            entry("Distance", DocumentNode::Integer(2)),
        ])),
    ])];
    let r = validate_unique_positions(&loops);
    assert!(!r.valid);
    assert_eq!(r.fail_messages, vec!["loop 'B' has duplicate position value: 4".to_string()]);
}

#[test]
fn distinct_positions_pass() {
    let loops = vec![
        material_loop("A", vec![
            entry("Position", DocumentNode::Integer(1)),
            entry("Distance", DocumentNode::Integer(2)),
        ]),
        material_loop("B", vec![
            entry("Position", DocumentNode::Integer(2)),
            entry("Distance", DocumentNode::Integer(4)),
        ]),
    ];
    let r = validate_unique_positions(&loops);
    assert!(r.valid);
    assert!(has_pass(&r, "loop 'A' has new position value: 1"));
    assert!(has_pass(&r, "loop 'B' has new position value: 2"));
}

#[test]
fn negative_positions_are_reported_as_written() {
    let loops = vec![material_loop("A", vec![
        entry("Position", DocumentNode::Integer(-12)),
        entry("Distance", DocumentNode::Integer(1)),
    ])];
    let r = validate_unique_positions(&loops);
    assert!(r.valid);
    assert!(has_pass(&r, "loop 'A' has new position value: -12"));
}

#[test]
fn loop_without_position_fails_the_uniqueness_pass() {
    let loops = vec![material_loop("A", vec![entry("Distance", DocumentNode::Integer(1))])];
    let r = validate_unique_positions(&loops);
    assert!(!r.valid);
    assert_eq!(r.fail_messages, vec!["loop 'A' is missing a position value".to_string()]);
}

#[test]
fn link_to_closer_loop_fails() {
    let loops = vec![
        material_loop("A", vec![
            entry("Position", DocumentNode::Integer(1)),
            entry("Distance", DocumentNode::Integer(5)),
        ]),
        material_loop("B", vec![
            entry("Position", DocumentNode::Integer(2)),
            entry("Distance", DocumentNode::Integer(3)),
            entry("Linked From Position", DocumentNode::Integer(1)),
        ]),
    ];
    let r = validate_unique_positions(&loops);
    assert!(!r.valid);
    assert!(has_fail(&r, "loop 'B' position 2: linked to loop with same or higher distance value"));
}

#[test]
fn link_to_farther_loop_passes() {
    let loops = vec![
        material_loop("A", vec![
            entry("Position", DocumentNode::Integer(1)),
            entry("Distance", DocumentNode::Integer(5)),
        ]),
        material_loop("B", vec![
            entry("Position", DocumentNode::Integer(2)),
            entry("Distance", DocumentNode::Integer(9)),
            entry("Linked From Position", DocumentNode::Integer(1)),
        ]),
    ];
    let r = validate_unique_positions(&loops);
    assert!(r.valid);
    assert!(!has_fail(&r, "loop 'B' position 2: linked to loop with same or higher distance value"));
}

#[test]
fn link_to_equal_distance_fails() {
    let loops = vec![
        material_loop("A", vec![
            entry("Position", DocumentNode::Integer(1)),
            entry("Distance", DocumentNode::Integer(5)),
        ]),
        material_loop("B", vec![
            entry("Position", DocumentNode::Integer(2)),
            entry("Distance", DocumentNode::Integer(5)),
            entry("Linked From Position", DocumentNode::Integer(1)),
        ]),
    ];
    let r = validate_unique_positions(&loops);
    assert!(!r.valid);
    assert!(has_fail(&r, "loop 'B' position 2: linked to loop with same or higher distance value"));
}

#[test]
fn link_to_unknown_position_fails() {
    let loops = vec![material_loop("B", vec![
        entry("Position", DocumentNode::Integer(2)),
        entry("Distance", DocumentNode::Integer(9)),
        entry("Linked From Position", DocumentNode::Integer(7)),
    ])];
    let r = validate_unique_positions(&loops);
    assert!(!r.valid);
    assert!(has_fail(&r, "loop 'B' position 2: linked-from position not found"));
}

#[test]
fn loop_contents_report_missing_fields_under_the_loop_name() {
    let the_loop = material_loop("IronLoop", vec![entry("Position", DocumentNode::Integer(1))]);
    let r = validate_material_loop_contents(&the_loop, &sets(&[], &["Iron"]));
    assert!(!r.valid);
    assert!(has_fail(&r, "IronLoop: 'Distance' key is missing"));
    assert!(has_fail(&r, "IronLoop: 'Material' key is missing"));
    assert!(has_pass(&r, "IronLoop: Position is present: 1"));
}

#[test]
fn loop_contents_check_material_membership() {
    let the_loop = material_loop("IronLoop", vec![
        entry("Position", DocumentNode::Integer(1)),
        entry("Distance", DocumentNode::Integer(2)),
        entry("Material", text("Gold")),
    ]);
    let r = validate_material_loop_contents(&the_loop, &sets(&[], &["Iron"]));
    assert!(!r.valid);
    assert!(has_fail(&r, "IronLoop: key Material: unknown value 'Gold' (typo, or item file needed)"));
}

#[test]
fn unlock_values_are_checked_against_elements() {
    let the_loop = material_loop("IronLoop", vec![
        entry("Position", DocumentNode::Integer(1)),
        entry("Distance", DocumentNode::Integer(2)),
        entry("Material", text("Iron")),
        entry("Unlock", DocumentNode::List(vec![text("Lava")])),
    ]);
    let r = validate_material_loop_contents(&the_loop, &sets(&["Fire"], &["Iron"]));
    assert!(!r.valid);
    assert!(has_fail(&r, "IronLoop: Unlock: Lava is an unknown value"));
}

#[test]
fn recipe_morph_level_requires_recipe_and_alchemy_level() {
    let levels = DocumentNode::List(vec![mapping(vec![(
        text("Recipe Morph"),
        mapping(vec![entry("Element", DocumentNode::List(vec![text("Fire")]))]),
    )])]);
    let r = validate_loop_levels(&levels, &sets(&["Fire"], &["Iron"]));
    assert!(!r.valid);
    assert!(has_fail(&r, "Recipe Morph: 'Recipe' key is missing"));
    assert!(has_fail(&r, "Recipe Morph: 'Required Alchemy Level' key is missing"));
    assert!(has_pass(&r, "Recipe Morph: Element values are known"));
}

#[test]
fn other_effect_level_needs_no_recipe() {
    let levels = DocumentNode::List(vec![mapping(vec![(
        text("Quality Up"),
        mapping(vec![entry("Element", DocumentNode::List(vec![text("Fire")]))]),
    )])]);
    let r = validate_loop_levels(&levels, &sets(&["Fire"], &["Iron"]));
    assert!(r.valid);
    assert!(has_pass(&r, "Quality Up: Element values are known"));
}

#[test]
fn level_without_element_list_fails() {
    let levels = DocumentNode::List(vec![mapping(vec![(text("Quality Up"), mapping(vec![]))])]);
    let r = validate_loop_levels(&levels, &sets(&["Fire"], &[]));
    assert!(!r.valid);
    assert!(has_fail(&r, "Quality Up: 'Element' key is missing"));
}

#[test]
fn recipe_morph_recipe_is_checked_against_materials() {
    let levels = DocumentNode::List(vec![mapping(vec![(
        text("Recipe Morph"),
        mapping(vec![
            entry("Element", DocumentNode::List(vec![text("Fire")])),
            entry("Recipe", text("Unobtainium")),
            entry("Required Alchemy Level", DocumentNode::Integer(10)),
        ]),
    )])]);
    let r = validate_loop_levels(&levels, &sets(&["Fire"], &["Iron"]));
    assert!(!r.valid);
    assert!(has_fail(&r, "Recipe Morph: key Recipe: unknown value 'Unobtainium' (typo, or item file needed)"));
}

#[test]
fn synthesis_messages_are_prefixed_through_every_level() {
    let synthesis = mapping(vec![
        entry("Required Materials", DocumentNode::Integer(1)),
        entry("Material Loops", DocumentNode::List(vec![material_loop("IronLoop", vec![
            entry("Position", DocumentNode::Integer(1)),
        ])])),
    ]);
    let r = validate_synthesis(&synthesis, &sets(&[], &["Iron"]));
    assert!(!r.valid);
    assert!(has_fail(&r, "Synthesis: IronLoop: 'Distance' key is missing"));
    assert!(has_pass(&r, "Synthesis: loop 'IronLoop' has new position value: 1"));
}
