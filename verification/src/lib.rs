//! A validator for semi-structured item-definition documents.
//!
//! The engine walks a generic document tree, checks its fields against a
//! reference schema and a set of controlled vocabularies, and, for
//! synthesized items, validates the nested material-loop structure with its
//! cross-field consistency rules.  Every check returns a
//! [`ValidationResults`] value; results are merged, never mutated in place,
//! and a result is valid exactly when no check recorded a fail message.

pub mod document;
pub mod field_checks;
pub mod file_contents;
pub mod item_model;
pub mod messages;
pub mod parse;
pub mod results;
pub mod settings;
pub mod synthesis;
pub mod text;
pub mod validate_item;
pub mod validation_sets;

pub use document::DocumentNode;
pub use file_contents::FileContents;
pub use item_model::{Element, ElementValue, Item};
pub use parse::{ParseError, build_item_validation_sets, validate_item_contents};
pub use results::ValidationResults;
pub use settings::Settings;
pub use synthesis::{
    should_have_synthesis, validate_loop_levels, validate_material_loop_contents,
    validate_material_loops, validate_synthesis, validate_unique_positions,
};
pub use validate_item::validate_item_document;
pub use validation_sets::{ItemValidationSets, build_sets_from_document};
