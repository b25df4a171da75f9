//! The primitive field checks: key presence, key presence with value-set
//! membership, and list presence with per-element value-set membership.
//!
//! Each check is a pure function of a document node; its meaning is given by
//! the spec function of the same shape, stated over the node and the
//! vocabulary (a sequence of allowed strings, membership being all that
//! matters).

use vstd::prelude::*;
use crate::document::{DocumentNode, doc_lookup, doc_get, str_eq};
use crate::messages::{
    msg_key_missing, msg_key_present_value, msg_key_present, msg_known_value, msg_unknown_value,
    msg_value_not_string, msg_unknown_list_value, msg_values_known, msg_not_a_list,
    build_key_missing, build_key_present_value, build_key_present, build_known_value,
    build_unknown_value, build_value_not_string, build_unknown_list_value, build_values_known,
    build_not_a_list,
};
use crate::results::{
    ResultModel, ValidationResults, empty_result, pass_result, fail_result, merge, strs_view,
    lemma_merge_identity, lemma_merge_wf, wf_result,
};

verus! {

/// Whether the vocabulary `vocab` holds the string `value`.
pub open spec fn vocab_has(vocab: Seq<Seq<char>>, value: Seq<char>) -> bool {
    vocab.contains(value)
}

/// Whether `value` is among the strings of `vocab`.
pub fn vocab_contains(vocab: &Vec<String>, value: &str) -> (r: bool)
    ensures
        r == vocab_has(strs_view(vocab@), value@),
{
    let n = vocab.len();
    for i in 0..n
        invariant
            n == vocab@.len(),
            forall|j: int| 0 <= j < i ==> vocab@[j]@ != value@,
    {
        if str_eq(vocab[i].as_str(), value) {
            proof {
                assert(strs_view(vocab@)[i as int] == value@);
            }
            return true;
        }
    }
    proof {
        assert forall|j: int| 0 <= j < strs_view(vocab@).len() implies strs_view(vocab@)[j] != value@ by {
            assert(vocab@[j]@ != value@);
        }
    }
    false
}

/// The result of checking that `key` is present in `node`.  A missing
/// required key fails; a missing optional key goes unremarked; a present key
/// passes, with its value named when it is a string or an integer.
pub open spec fn sv_key(node: DocumentNode, key: Seq<char>, required: bool) -> ResultModel {
    match doc_lookup(node, key) {
        DocumentNode::Missing => if required {
            fail_result(msg_key_missing(key))
        } else {
            empty_result()
        },
        DocumentNode::Text(s) => pass_result(msg_key_present_value(key, s@)),
        DocumentNode::Integer(i) => pass_result(msg_key_present_value(key, crate::text::spec_i64_str(i as int))),
        _ => pass_result(msg_key_present(key)),
    }
}

/// Check that `key` is present in `node`.
pub fn validate_key(node: &DocumentNode, key: &str, required: bool) -> (r: ValidationResults)
    ensures
        r@ == sv_key(*node, key@, required),
{
    match doc_get(node, key) {
        None => {
            if required {
                ValidationResults::failing(build_key_missing(key))
            } else {
                ValidationResults::new()
            }
        },
        Some(value) => match value {
            DocumentNode::Missing => {
                if required {
                    ValidationResults::failing(build_key_missing(key))
                } else {
                    ValidationResults::new()
                }
            },
            DocumentNode::Text(s) => ValidationResults::passing(build_key_present_value(key, s.as_str())),
            DocumentNode::Integer(i) => {
                let value_text = crate::text::i64_to_string(*i);
                ValidationResults::passing(build_key_present_value(key, value_text.as_str()))
            },
            _ => ValidationResults::passing(build_key_present(key)),
        },
    }
}

/// The result of checking that `key` is present in `node` with a scalar
/// string value that belongs to `vocab`.  A present value of another shape
/// fails; an unknown string fails; a known string passes.
pub open spec fn sv_key_and_value(
    node: DocumentNode,
    key: Seq<char>,
    vocab: Seq<Seq<char>>,
    required: bool,
) -> ResultModel {
    match doc_lookup(node, key) {
        DocumentNode::Missing => if required {
            fail_result(msg_key_missing(key))
        } else {
            empty_result()
        },
        DocumentNode::Text(s) => if vocab_has(vocab, s@) {
            pass_result(msg_known_value(key, s@))
        } else {
            fail_result(msg_unknown_value(key, s@))
        },
        _ => fail_result(msg_value_not_string(key)),
    }
}

/// Check that `key` is present in `node` with a string value drawn from
/// `vocab`.
pub fn validate_key_and_value(
    node: &DocumentNode,
    key: &str,
    validation_set: &Vec<String>,
    required: bool,
) -> (r: ValidationResults)
    ensures
        r@ == sv_key_and_value(*node, key@, strs_view(validation_set@), required),
{
    match doc_get(node, key) {
        None => {
            if required {
                ValidationResults::failing(build_key_missing(key))
            } else {
                ValidationResults::new()
            }
        },
        Some(value) => match value {
            DocumentNode::Missing => {
                if required {
                    ValidationResults::failing(build_key_missing(key))
                } else {
                    ValidationResults::new()
                }
            },
            DocumentNode::Text(s) => {
                if vocab_contains(validation_set, s.as_str()) {
                    ValidationResults::passing(build_known_value(key, s.as_str()))
                } else {
                    ValidationResults::failing(build_unknown_value(key, s.as_str()))
                }
            },
            _ => ValidationResults::failing(build_value_not_string(key)),
        },
    }
}

/// The messages contributed by one element of a validated list: an unknown
/// string fails; a mapping is checked through its string keys; any other
/// shape goes unremarked.
pub open spec fn sv_list_element(key: Seq<char>, vocab: Seq<Seq<char>>, elem: DocumentNode) -> ResultModel {
    match elem {
        DocumentNode::Text(s) => if vocab_has(vocab, s@) {
            empty_result()
        } else {
            fail_result(msg_unknown_list_value(key, s@))
        },
        DocumentNode::Mapping(entries) => sv_entry_keys(key, vocab, entries@),
        _ => empty_result(),
    }
}

/// The messages contributed by the keys of one mapping element: each string
/// key must belong to `vocab`.
pub open spec fn sv_entry_keys(
    key: Seq<char>,
    vocab: Seq<Seq<char>>,
    entries: Seq<(DocumentNode, DocumentNode)>,
) -> ResultModel
    decreases entries.len(),
{
    if entries.len() == 0 {
        empty_result()
    } else {
        merge(
            sv_entry_keys(key, vocab, entries.drop_last()),
            match entries.last().0 {
                DocumentNode::Text(s) => if vocab_has(vocab, s@) {
                    empty_result()
                } else {
                    fail_result(msg_unknown_list_value(key, s@))
                },
                _ => empty_result(),
            },
        )
    }
}

/// The messages contributed by all elements of a validated list, in order.
pub open spec fn sv_list_elements(key: Seq<char>, vocab: Seq<Seq<char>>, elems: Seq<DocumentNode>) -> ResultModel
    decreases elems.len(),
{
    if elems.len() == 0 {
        empty_result()
    } else {
        merge(
            sv_list_elements(key, vocab, elems.drop_last()),
            sv_list_element(key, vocab, elems.last()),
        )
    }
}

/// The result of checking the value at `key` as a list over `vocab`: every
/// string element and every string key of a mapping element must belong to
/// `vocab`; when all do, one pass message records it.  A value that is not a
/// list fails only when the list is required.
pub open spec fn sv_list_values(
    node: DocumentNode,
    key: Seq<char>,
    vocab: Seq<Seq<char>>,
    required: bool,
) -> ResultModel {
    match doc_lookup(node, key) {
        DocumentNode::List(elems) => {
            let r = sv_list_elements(key, vocab, elems@);
            if r.valid {
                merge(r, pass_result(msg_values_known(key)))
            } else {
                r
            }
        },
        _ => if required {
            fail_result(msg_not_a_list(key))
        } else {
            empty_result()
        },
    }
}

/// The result of validating the list at `key`: the presence check first,
/// and only if it succeeds the element-wise check.
pub open spec fn sv_list(node: DocumentNode, key: Seq<char>, vocab: Seq<Seq<char>>, required: bool) -> ResultModel {
    let head = sv_key(node, key, required);
    if head.valid {
        merge(head, sv_list_values(node, key, vocab, required))
    } else {
        head
    }
}

/// The presence check is well formed: valid exactly when it recorded no
/// fail message.
pub proof fn lemma_sv_key_wf(node: DocumentNode, key: Seq<char>, required: bool)
    ensures
        wf_result(sv_key(node, key, required)),
{
}

/// The value-membership check is well formed.
pub proof fn lemma_sv_key_and_value_wf(
    node: DocumentNode,
    key: Seq<char>,
    vocab: Seq<Seq<char>>,
    required: bool,
)
    ensures
        wf_result(sv_key_and_value(node, key, vocab, required)),
{
}

/// The mapping-key membership check is well formed.
pub proof fn lemma_sv_entry_keys_wf(
    key: Seq<char>,
    vocab: Seq<Seq<char>>,
    entries: Seq<(DocumentNode, DocumentNode)>,
)
    ensures
        wf_result(sv_entry_keys(key, vocab, entries)),
    decreases entries.len(),
{
    if entries.len() > 0 {
        lemma_sv_entry_keys_wf(key, vocab, entries.drop_last());
    }
}

/// The element-wise membership check is well formed.
pub proof fn lemma_sv_list_elements_wf(key: Seq<char>, vocab: Seq<Seq<char>>, elems: Seq<DocumentNode>)
    ensures
        wf_result(sv_list_elements(key, vocab, elems)),
    decreases elems.len(),
{
    if elems.len() > 0 {
        lemma_sv_list_elements_wf(key, vocab, elems.drop_last());
        match elems.last() {
            DocumentNode::Mapping(entries) => {
                lemma_sv_entry_keys_wf(key, vocab, entries@);
            },
            _ => {},
        }
    }
}

/// The list-value check is well formed.
pub proof fn lemma_sv_list_values_wf(
    node: DocumentNode,
    key: Seq<char>,
    vocab: Seq<Seq<char>>,
    required: bool,
)
    ensures
        wf_result(sv_list_values(node, key, vocab, required)),
{
    match doc_lookup(node, key) {
        DocumentNode::List(elems) => {
            lemma_sv_list_elements_wf(key, vocab, elems@);
        },
        _ => {},
    }
}

/// The whole list check is well formed.
pub proof fn lemma_sv_list_wf(node: DocumentNode, key: Seq<char>, vocab: Seq<Seq<char>>, required: bool)
    ensures
        wf_result(sv_list(node, key, vocab, required)),
{
    lemma_sv_key_wf(node, key, required);
    lemma_sv_list_values_wf(node, key, vocab, required);
    lemma_merge_wf(sv_key(node, key, required), sv_list_values(node, key, vocab, required));
}

/// Check the keys of one mapping element of a list.
fn validate_entry_keys(key: &str, validation_set: &Vec<String>, entries: &Vec<(DocumentNode, DocumentNode)>) -> (r: ValidationResults)
    ensures
        r@ == sv_entry_keys(key@, strs_view(validation_set@), entries@),
{
    let mut results = ValidationResults::new();
    proof {
        assert(entries@.take(0) =~= Seq::<(DocumentNode, DocumentNode)>::empty());
        lemma_merge_identity(results@);
    }
    let n = entries.len();
    for i in 0..n
        invariant
            n == entries@.len(),
            results@ == sv_entry_keys(key@, strs_view(validation_set@), entries@.take(i as int)),
    {
        let ghost prev = results@;
        match &entries[i].0 {
            DocumentNode::Text(s) => {
                if !vocab_contains(validation_set, s.as_str()) {
                    results.combine(ValidationResults::failing(build_unknown_list_value(key, s.as_str())));
                } else {
                    proof {
                        lemma_merge_identity(prev);
                    }
                }
            },
            _ => {
                proof {
                    lemma_merge_identity(prev);
                }
            },
        }
        proof {
            assert(entries@.take(i + 1).drop_last() =~= entries@.take(i as int));
            assert(entries@.take(i + 1).last() == entries@[i as int]);
        }
    }
    proof {
        assert(entries@.take(n as int) =~= entries@);
    }
    results
}

/// Check every element of the list `elems` against `vocab`.
fn validate_list_elements(key: &str, validation_set: &Vec<String>, elems: &Vec<DocumentNode>) -> (r: ValidationResults)
    ensures
        r@ == sv_list_elements(key@, strs_view(validation_set@), elems@),
{
    let mut results = ValidationResults::new();
    proof {
        assert(elems@.take(0) =~= Seq::<DocumentNode>::empty());
    }
    let n = elems.len();
    for i in 0..n
        invariant
            n == elems@.len(),
            results@ == sv_list_elements(key@, strs_view(validation_set@), elems@.take(i as int)),
    {
        let ghost prev = results@;
        match &elems[i] {
            DocumentNode::Text(s) => {
                if !vocab_contains(validation_set, s.as_str()) {
                    results.combine(ValidationResults::failing(build_unknown_list_value(key, s.as_str())));
                } else {
                    proof {
                        lemma_merge_identity(prev);
                    }
                }
            },
            DocumentNode::Mapping(entries) => {
                results.combine(validate_entry_keys(key, validation_set, entries));
            },
            _ => {
                proof {
                    lemma_merge_identity(prev);
                }
            },
        }
        proof {
            assert(elems@.take(i + 1).drop_last() =~= elems@.take(i as int));
            assert(elems@.take(i + 1).last() == elems@[i as int]);
        }
    }
    proof {
        assert(elems@.take(n as int) =~= elems@);
    }
    results
}

/// Check the value at `key` as a list whose members are drawn from
/// `validation_set`.
pub fn validate_list_values(
    node: &DocumentNode,
    key: &str,
    validation_set: &Vec<String>,
    required: bool,
) -> (r: ValidationResults)
    ensures
        r@ == sv_list_values(*node, key@, strs_view(validation_set@), required),
{
    match doc_get(node, key) {
        Some(value) => match value {
            DocumentNode::List(elems) => {
                let mut results = validate_list_elements(key, validation_set, elems);
                if results.valid {
                    results.combine(ValidationResults::passing(build_values_known(key)));
                }
                results
            },
            _ => {
                if required {
                    ValidationResults::failing(build_not_a_list(key))
                } else {
                    ValidationResults::new()
                }
            },
        },
        None => {
            if required {
                ValidationResults::failing(build_not_a_list(key))
            } else {
                ValidationResults::new()
            }
        },
    }
}

/// Validate the list at `key`: presence first, then, if the presence check
/// succeeded, the element-wise membership check.
pub fn validate_list(
    node: &DocumentNode,
    key: &str,
    validation_set: &Vec<String>,
    required: bool,
) -> (r: ValidationResults)
    ensures
        r@ == sv_list(*node, key@, strs_view(validation_set@), required),
{
    let mut results = validate_key(node, key, required);
    if results.valid {
        results.combine(validate_list_values(node, key, validation_set, required));
    }
    results
}

} // verus!
