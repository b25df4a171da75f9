//! The boundary to the outside YAML parser.
//!
//! Everything below the parse wrapper is verified against the document tree
//! alone.  Parsing is deterministic — the tree is a function of the text —
//! so the wrapper's result carries the name [`first_document_of`], and the
//! public functions here say exactly when parsing succeeds and that what
//! they return is the full validation (or the vocabulary build) of that
//! named tree.

use vstd::prelude::*;
use crate::document::DocumentNode;
use crate::results::ValidationResults;
use crate::validate_item::{sv_item, validate_item_document};
use crate::validation_sets::{ItemValidationSets, spec_build_sets, build_sets_from_document};

verus! {

#[verifier::external_type_specification]
#[verifier::external_body]
pub struct ExYaml(yaml_rust::Yaml);

/// The failure surfaced when a document's text cannot be turned into a
/// tree at all.  It is distinct from a validation result: the caller logs
/// it and goes on to the next file.
#[derive(Debug, PartialEq, Eq)]
pub struct ParseError;

/// The first YAML document of `text`, as the library's tree: `None` when
/// the text does not scan or holds no document.  YAML parsing depends on
/// the text alone, so the result is a function of it.
pub uninterp spec fn first_document_of(text: Seq<char>) -> Option<DocumentNode>;

/// Relies on `yaml_rust::Yaml`'s variants: converts a parsed node into the
/// library's document tree, one variant at a time.  Scalars that are
/// neither strings nor integers, and aliases, become `Other`.  It is the
/// conversion half of [`parse_first_document`], which is its only caller.
#[verifier::external_body]
fn document_from_yaml(y: &yaml_rust::Yaml) -> DocumentNode {
    match y {
        yaml_rust::Yaml::String(s) => DocumentNode::Text(s.clone()),
        yaml_rust::Yaml::Integer(i) => DocumentNode::Integer(*i),
        yaml_rust::Yaml::Array(v) => DocumentNode::List(v.iter().map(document_from_yaml).collect()),
        yaml_rust::Yaml::Hash(h) => DocumentNode::Mapping(
            h.iter().map(|(k, v)| (document_from_yaml(k), document_from_yaml(v))).collect(),
        ),
        yaml_rust::Yaml::BadValue => DocumentNode::Missing,
        _ => DocumentNode::Other,
    }
}

/// Relies on `yaml_rust::YamlLoader::load_from_str`, and on the convention
/// that only the first document of a file is used: hands back that
/// document converted to the library's tree, or `None` when the text does
/// not scan or holds no document.
#[verifier::external_body]
fn parse_first_document(text: &str) -> (r: Option<DocumentNode>)
    ensures
        r == first_document_of(text@),
{
    match yaml_rust::YamlLoader::load_from_str(text) {
        Ok(docs) => docs.first().map(document_from_yaml),
        Err(_) => None,
    }
}

/// Parse the text of one item file and validate its first document against
/// the vocabulary sets.  Parsing succeeds exactly when the text holds a
/// first document, and the returned result is the full validation of that
/// document; text that does not parse is a `ParseError`, never a panic.
pub fn validate_item_contents(contents: &str, item_validation_sets: &ItemValidationSets) -> (r: Result<
    ValidationResults,
    ParseError,
>)
    ensures
        r is Ok <==> first_document_of(contents@) is Some,
        r matches Ok(v) ==> v@ == sv_item(first_document_of(contents@).unwrap(), item_validation_sets@),
{
    match parse_first_document(contents) {
        Some(doc) => Ok(validate_item_document(&doc, item_validation_sets)),
        None => Err(ParseError),
    }
}

/// Parse the master list text and build the vocabulary sets from its first
/// document.  Parsing succeeds exactly when the text holds a first
/// document, and the returned sets are built from that document.
pub fn build_item_validation_sets(contents: &str) -> (r: Result<ItemValidationSets, ParseError>)
    ensures
        r is Ok <==> first_document_of(contents@) is Some,
        r matches Ok(sets) ==> sets@ == spec_build_sets(first_document_of(contents@).unwrap()),
{
    match parse_first_document(contents) {
        Some(doc) => Ok(build_sets_from_document(&doc)),
        None => Err(ParseError),
    }
}

} // verus!
