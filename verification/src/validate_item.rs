//! The top-level item validator: the universal key checks, the decision
//! whether synthesis is required, and the merge of every sub-check into one
//! result.

use vstd::prelude::*;
use crate::document::{DocumentNode, doc_lookup};
use crate::field_checks::{
    sv_key, sv_list, validate_key, validate_list, lemma_sv_key_wf, lemma_sv_list_wf,
};
use crate::messages::{msg_key_missing, msg_synthesis_missing};
use crate::results::{
    ResultModel, ValidationResults, empty_result, fail_result, merge, lemma_merge_identity,
    lemma_merge_keeps_fail, wf_result,
};
use crate::synthesis::{
    s_should_have_synthesis, should_have_synthesis, sv_synthesis, validate_synthesis,
    seq_has_materials, lemma_sv_synthesis_wf,
};
use crate::validation_sets::{ItemValidationSets, SetsModel};

verus! {

/// The checks every item gets: the three required scalar keys and the three
/// required vocabulary lists, merged in order.
pub open spec fn sv_universal(doc: DocumentNode, sets: SetsModel) -> ResultModel {
    merge(
        merge(
            merge(
                merge(
                    merge(
                        sv_key(doc, "Name"@, true),
                        sv_key(doc, "Item Number"@, true),
                    ),
                    sv_key(doc, "Level"@, true),
                ),
                sv_list(doc, "Category"@, sets.categories, true),
            ),
            sv_list(doc, "Classifications"@, sets.classifications, true),
        ),
        sv_list(doc, "Element"@, sets.elements, true),
    )
}

/// The full validation of one item document: the universal checks, the
/// `Materials` list (required exactly when synthesis is), and, when
/// required, the synthesis block.
pub open spec fn sv_item(doc: DocumentNode, sets: SetsModel) -> ResultModel {
    let universal = sv_universal(doc, sets);
    let required = s_should_have_synthesis(doc);
    let with_materials = merge(universal, sv_list(doc, "Materials"@, sets.materials, required));
    if required {
        merge(with_materials, sv_synthesis(doc_lookup(doc, "Synthesis"@), sets))
    } else {
        with_materials
    }
}

/// Validate one parsed item document against the vocabulary sets.
pub fn validate_item_document(doc: &DocumentNode, sets: &ItemValidationSets) -> (r: ValidationResults)
    ensures
        r@ == sv_item(*doc, sets@),
{
    let mut results = validate_key(doc, "Name", true);
    results.combine(validate_key(doc, "Item Number", true));
    results.combine(validate_key(doc, "Level", true));
    results.combine(validate_list(doc, "Category", &sets.categories, true));
    results.combine(validate_list(doc, "Classifications", &sets.classifications, true));
    results.combine(validate_list(doc, "Element", &sets.elements, true));

    let synthesis_required = should_have_synthesis(doc);

    results.combine(validate_list(doc, "Materials", &sets.materials, synthesis_required));
    if synthesis_required {
        match crate::document::doc_get(doc, "Synthesis") {
            Some(synthesis_value) => {
                results.combine(validate_synthesis(synthesis_value, sets));
            },
            None => {
                let missing = DocumentNode::Missing;
                results.combine(validate_synthesis(&missing, sets));
            },
        }
    }
    results
}

/// The universal checks are well formed.
pub proof fn lemma_sv_universal_wf(doc: DocumentNode, sets: SetsModel)
    ensures
        wf_result(sv_universal(doc, sets)),
{
    lemma_sv_key_wf(doc, "Name"@, true);
    lemma_sv_key_wf(doc, "Item Number"@, true);
    lemma_sv_key_wf(doc, "Level"@, true);
    lemma_sv_list_wf(doc, "Category"@, sets.categories, true);
    lemma_sv_list_wf(doc, "Classifications"@, sets.classifications, true);
    lemma_sv_list_wf(doc, "Element"@, sets.elements, true);
}

/// The invariant of every item validation: the result is valid exactly
/// when no contributing check recorded a fail message — even though checks
/// record pass messages for informational fields without affecting
/// validity.
pub proof fn lemma_item_valid_iff_no_failures(doc: DocumentNode, sets: SetsModel)
    ensures
        sv_item(doc, sets).valid <==> sv_item(doc, sets).fail.len() == 0,
{
    lemma_sv_universal_wf(doc, sets);
    let required = s_should_have_synthesis(doc);
    lemma_sv_list_wf(doc, "Materials"@, sets.materials, required);
    if required {
        lemma_sv_synthesis_wf(doc_lookup(doc, "Synthesis"@), sets);
    }
}

/// A document without a `Name` key is invalid, and its result carries the
/// message that says so.
pub proof fn lemma_missing_name_invalid(doc: DocumentNode, sets: SetsModel)
    requires
        doc_lookup(doc, "Name"@) is Missing,
    ensures
        !sv_item(doc, sets).valid,
        sv_item(doc, sets).fail.contains(msg_key_missing("Name"@)),
{
    let m = msg_key_missing("Name"@);
    let name_check = sv_key(doc, "Name"@, true);
    assert(name_check.fail == seq![m]);
    assert(name_check.fail[0] == m);
    assert(name_check.fail.contains(m));
    let ab = merge(name_check, sv_key(doc, "Item Number"@, true));
    lemma_merge_keeps_fail(name_check, sv_key(doc, "Item Number"@, true), m);
    let abc = merge(ab, sv_key(doc, "Level"@, true));
    lemma_merge_keeps_fail(ab, sv_key(doc, "Level"@, true), m);
    let abcd = merge(abc, sv_list(doc, "Category"@, sets.categories, true));
    lemma_merge_keeps_fail(abc, sv_list(doc, "Category"@, sets.categories, true), m);
    let abcde = merge(abcd, sv_list(doc, "Classifications"@, sets.classifications, true));
    lemma_merge_keeps_fail(abcd, sv_list(doc, "Classifications"@, sets.classifications, true), m);
    let universal = merge(abcde, sv_list(doc, "Element"@, sets.elements, true));
    lemma_merge_keeps_fail(abcde, sv_list(doc, "Element"@, sets.elements, true), m);
    let required = s_should_have_synthesis(doc);
    let with_materials = merge(universal, sv_list(doc, "Materials"@, sets.materials, required));
    lemma_merge_keeps_fail(universal, sv_list(doc, "Materials"@, sets.materials, required), m);
    if required {
        lemma_merge_keeps_fail(with_materials, sv_synthesis(doc_lookup(doc, "Synthesis"@), sets), m);
    }
}

/// For an item classified as `Materials`, no synthesis is required, and
/// when its `Materials` key is also absent the whole validation reduces to
/// the universal checks: the absence of `Materials` and `Synthesis` affects
/// neither validity nor messages.
pub proof fn lemma_materials_classification(doc: DocumentNode, sets: SetsModel)
    requires
        doc_lookup(doc, "Classifications"@) matches DocumentNode::List(elems)
            && seq_has_materials(elems@),
    ensures
        !s_should_have_synthesis(doc),
        doc_lookup(doc, "Materials"@) is Missing ==> sv_item(doc, sets) == sv_universal(doc, sets),
{
    if doc_lookup(doc, "Materials"@) is Missing {
        let materials_check = sv_list(doc, "Materials"@, sets.materials, false);
        assert(materials_check =~= empty_result());
        lemma_merge_identity(sv_universal(doc, sets));
    }
}

/// For an item that requires synthesis, a missing `Synthesis` key makes the
/// result invalid, and the result carries the message that says so.
pub proof fn lemma_missing_synthesis_invalid(doc: DocumentNode, sets: SetsModel)
    requires
        s_should_have_synthesis(doc),
        doc_lookup(doc, "Synthesis"@) is Missing,
    ensures
        !sv_item(doc, sets).valid,
        sv_item(doc, sets).fail.contains(msg_synthesis_missing()),
{
    let m = msg_synthesis_missing();
    let synthesis_check = sv_synthesis(doc_lookup(doc, "Synthesis"@), sets);
    assert(synthesis_check == fail_result(m));
    assert(synthesis_check.fail[0] == m);
    assert(synthesis_check.fail.contains(m));
    let universal = sv_universal(doc, sets);
    let with_materials = merge(universal, sv_list(doc, "Materials"@, sets.materials, true));
    lemma_merge_keeps_fail(with_materials, synthesis_check, m);
}

} // verus!
