//! The synthesis validator: the recursive checks over the nested
//! material-loop structure of a synthesized item.
//!
//! An item requires a synthesis block exactly when its `Classifications`
//! list does not hold the value `Materials`.  Inside the block, positions
//! must be pairwise distinct across the material loops, a loop linked from
//! position `P` must lie at a strictly greater distance than the loop at
//! `P`, and each loop and each of its levels carries its own required
//! fields.

use vstd::prelude::*;
use crate::document::{DocumentNode, doc_lookup, doc_get, str_eq};
use crate::field_checks::{
    sv_key, sv_key_and_value, sv_list, validate_key, validate_key_and_value, validate_list,
    lemma_sv_key_wf, lemma_sv_key_and_value_wf, lemma_sv_list_wf,
};
use crate::messages::{
    msg_new_position, msg_duplicate_position, msg_missing_position, msg_link_not_found,
    msg_link_distance, msg_synthesis_missing, msg_loops_missing, msg_loops_not_list,
    msg_malformed_loop, build_new_position, build_duplicate_position, build_missing_position,
    build_link_not_found, build_link_distance,
};
use crate::results::{
    ResultModel, ValidationResults, empty_result, pass_result, fail_result, merge,
    prefixed_result, with_prefix, lemma_merge_identity, lemma_prefixed_wf, wf_result,
};
use crate::validation_sets::{ItemValidationSets, SetsModel};

verus! {

/// Whether some element of `elems` is the scalar string `Materials`.
pub open spec fn seq_has_materials(elems: Seq<DocumentNode>) -> bool {
    exists|i: int|
        {
            &&& 0 <= i < elems.len()
            &&& (#[trigger] elems[i]) matches DocumentNode::Text(s) && s@ == "Materials"@
        }
}

/// Whether the item needs a synthesis block: it does, unless its
/// `Classifications` list holds the value `Materials`.  A missing or
/// non-list `Classifications` value defaults to requiring synthesis.
pub open spec fn s_should_have_synthesis(doc: DocumentNode) -> bool {
    match doc_lookup(doc, "Classifications"@) {
        DocumentNode::List(elems) => !seq_has_materials(elems@),
        _ => true,
    }
}

/// Decide whether the item described by `doc` needs a synthesis block.
pub fn should_have_synthesis(doc: &DocumentNode) -> (r: bool)
    ensures
        r == s_should_have_synthesis(*doc),
{
    match doc_get(doc, "Classifications") {
        Some(value) => match value {
            DocumentNode::List(elems) => {
                let mut required = true;
                let n = elems.len();
                for i in 0..n
                    invariant
                        n == elems@.len(),
                        required == !seq_has_materials(elems@.take(i as int)),
                {
                    match &elems[i] {
                        DocumentNode::Text(s) => {
                            if str_eq(s.as_str(), "Materials") {
                                required = false;
                            }
                        },
                        _ => {},
                    }
                    proof {
                        let pre = elems@.take(i as int);
                        let post = elems@.take(i + 1);
                        assert(post.drop_last() =~= pre);
                        assert(post.last() == elems@[i as int]);
                        if seq_has_materials(pre) {
                            let k = choose|k: int|
                                {
                                    &&& 0 <= k < pre.len()
                                    &&& (#[trigger] pre[k]) matches DocumentNode::Text(s) && s@
                                        == "Materials"@
                                };
                            assert(post[k] == pre[k]);
                            assert(seq_has_materials(post));
                        }
                        if seq_has_materials(post) && !seq_has_materials(pre) {
                            let k = choose|k: int|
                                {
                                    &&& 0 <= k < post.len()
                                    &&& (#[trigger] post[k]) matches DocumentNode::Text(s) && s@
                                        == "Materials"@
                                };
                            if k < i {
                                assert(pre[k] == post[k]);
                                assert(seq_has_materials(pre));
                            }
                            assert(k == i);
                        }
                    }
                }
                proof {
                    assert(elems@.take(n as int) =~= elems@);
                }
                required
            },
            _ => true,
        },
        None => true,
    }
}

/// The distance declared by a loop's details, when it is an integer.
pub open spec fn spec_distance_of(details: DocumentNode) -> Option<i64> {
    match doc_lookup(details, "Distance"@) {
        DocumentNode::Integer(d) => Some(d),
        _ => None,
    }
}

/// The record for position `p` among the positions already seen: `None`
/// when `p` was never recorded, otherwise the distance its loop declared,
/// when that distance was an integer.
pub open spec fn seen_find(seen: Seq<(i64, Option<i64>)>, p: i64) -> Option<Option<i64>>
    decreases seen.len(),
{
    if seen.len() == 0 {
        None
    } else if seen[0].0 == p {
        Some(seen[0].1)
    } else {
        seen_find(seen.drop_first(), p)
    }
}

/// Look the position `p` up among the seen positions.
fn seen_lookup(seen: &Vec<(i64, Option<i64>)>, p: i64) -> (r: Option<Option<i64>>)
    ensures
        r == seen_find(seen@, p),
{
    proof {
        assert(seen@.skip(0) =~= seen@);
    }
    let n = seen.len();
    for i in 0..n
        invariant
            n == seen@.len(),
            seen_find(seen@, p) == seen_find(seen@.skip(i as int), p),
    {
        proof {
            assert(seen@.skip(i as int)[0] == seen@[i as int]);
            assert(seen@.skip(i as int).drop_first() =~= seen@.skip(i + 1));
        }
        if seen[i].0 == p {
            return Some(seen[i].1);
        }
    }
    proof {
        assert(seen@.skip(n as int) =~= Seq::<(i64, Option<i64>)>::empty());
    }
    None
}

/// First pass over one loop entry: a named entry whose `Position` is an
/// integer is checked against the positions seen so far — a duplicate fails,
/// a first occurrence passes and is recorded together with the entry's
/// declared distance.  A named entry without an integer `Position` fails.
pub open spec fn p1_entry(
    name: DocumentNode,
    details: DocumentNode,
    seen: Seq<(i64, Option<i64>)>,
) -> (ResultModel, Seq<(i64, Option<i64>)>) {
    match name {
        DocumentNode::Text(n) => match doc_lookup(details, "Position"@) {
            DocumentNode::Integer(p) => if seen_find(seen, p) is Some {
                (fail_result(msg_duplicate_position(n@, p as int)), seen)
            } else {
                (pass_result(msg_new_position(n@, p as int)), seen.push((p, spec_distance_of(details))))
            },
            _ => (fail_result(msg_missing_position(n@)), seen),
        },
        _ => (empty_result(), seen),
    }
}

/// First pass over the entries of one loop mapping, in order.
pub open spec fn p1_entries(
    entries: Seq<(DocumentNode, DocumentNode)>,
    seen: Seq<(i64, Option<i64>)>,
) -> (ResultModel, Seq<(i64, Option<i64>)>)
    decreases entries.len(),
{
    if entries.len() == 0 {
        (empty_result(), seen)
    } else {
        let prev = p1_entries(entries.drop_last(), seen);
        let step = p1_entry(entries.last().0, entries.last().1, prev.1);
        (merge(prev.0, step.0), step.1)
    }
}

/// First pass over the whole loops list; elements that are not mappings are
/// left to the per-loop content check.
pub open spec fn p1_loops(
    loops: Seq<DocumentNode>,
    seen: Seq<(i64, Option<i64>)>,
) -> (ResultModel, Seq<(i64, Option<i64>)>)
    decreases loops.len(),
{
    if loops.len() == 0 {
        (empty_result(), seen)
    } else {
        let prev = p1_loops(loops.drop_last(), seen);
        match loops.last() {
            DocumentNode::Mapping(entries) => {
                let step = p1_entries(entries@, prev.1);
                (merge(prev.0, step.0), step.1)
            },
            _ => prev,
        }
    }
}

/// Second pass over one loop entry: an entry that declares an integer
/// `Linked From Position` must point at a recorded position whose declared
/// distance is strictly smaller than its own.  A position never recorded
/// fails; one recorded without an integer distance is left to the per-loop
/// content check of its `Distance` field.
pub open spec fn p2_entry(
    name: DocumentNode,
    details: DocumentNode,
    seen: Seq<(i64, Option<i64>)>,
) -> ResultModel {
    match name {
        DocumentNode::Text(n) => match doc_lookup(details, "Position"@) {
            DocumentNode::Integer(p) => match doc_lookup(details, "Linked From Position"@) {
                DocumentNode::Integer(lp) => match doc_lookup(details, "Distance"@) {
                    DocumentNode::Integer(d) => match seen_find(seen, lp) {
                        Option::None => fail_result(msg_link_not_found(n@, p as int)),
                        Option::Some(found) => match found {
                            Option::Some(ld) => if ld >= d {
                                fail_result(msg_link_distance(n@, p as int))
                            } else {
                                empty_result()
                            },
                            Option::None => empty_result(),
                        },
                    },
                    _ => empty_result(),
                },
                _ => empty_result(),
            },
            _ => empty_result(),
        },
        _ => empty_result(),
    }
}

/// Second pass over the entries of one loop mapping.
pub open spec fn p2_entries(
    entries: Seq<(DocumentNode, DocumentNode)>,
    seen: Seq<(i64, Option<i64>)>,
) -> ResultModel
    decreases entries.len(),
{
    if entries.len() == 0 {
        empty_result()
    } else {
        merge(
            p2_entries(entries.drop_last(), seen),
            p2_entry(entries.last().0, entries.last().1, seen),
        )
    }
}

/// Second pass over the whole loops list.
pub open spec fn p2_loops(loops: Seq<DocumentNode>, seen: Seq<(i64, Option<i64>)>) -> ResultModel
    decreases loops.len(),
{
    if loops.len() == 0 {
        empty_result()
    } else {
        merge(
            p2_loops(loops.drop_last(), seen),
            match loops.last() {
                DocumentNode::Mapping(entries) => p2_entries(entries@, seen),
                _ => empty_result(),
            },
        )
    }
}

/// The result of checking position uniqueness and linked-distance ordering
/// across all material loops: the first pass records positions and reports
/// duplicates, the second checks every link against the record.
pub open spec fn sv_unique_positions(loops: Seq<DocumentNode>) -> ResultModel {
    let p1 = p1_loops(loops, Seq::empty());
    merge(p1.0, p2_loops(loops, p1.1))
}

/// Run the first pass over the entries of one loop mapping.
fn p1_check_entries(
    entries: &Vec<(DocumentNode, DocumentNode)>,
    seen: &mut Vec<(i64, Option<i64>)>,
) -> (r: ValidationResults)
    ensures
        r@ == p1_entries(entries@, old(seen)@).0,
        final(seen)@ == p1_entries(entries@, old(seen)@).1,
{
    let mut results = ValidationResults::new();
    proof {
        assert(entries@.take(0) =~= Seq::<(DocumentNode, DocumentNode)>::empty());
    }
    let n = entries.len();
    for j in 0..n
        invariant
            n == entries@.len(),
            results@ == p1_entries(entries@.take(j as int), old(seen)@).0,
            seen@ == p1_entries(entries@.take(j as int), old(seen)@).1,
    {
        let ghost prev = results@;
        let entry = &entries[j];
        match &entry.0 {
            DocumentNode::Text(name) => {
                match doc_get(&entry.1, "Position") {
                    Some(DocumentNode::Integer(p)) => {
                        if seen_lookup(seen, *p).is_some() {
                            results.combine(ValidationResults::failing(build_duplicate_position(name.as_str(), *p)));
                        } else {
                            results.combine(ValidationResults::passing(build_new_position(name.as_str(), *p)));
                            let distance = match doc_get(&entry.1, "Distance") {
                                Some(DocumentNode::Integer(d)) => Some(*d),
                                _ => None,
                            };
                            seen.push((*p, distance));
                        }
                    },
                    _ => {
                        results.combine(ValidationResults::failing(build_missing_position(name.as_str())));
                    },
                }
            },
            _ => {
                proof {
                    lemma_merge_identity(prev);
                }
            },
        }
        proof {
            assert(entries@.take(j + 1).drop_last() =~= entries@.take(j as int));
            assert(entries@.take(j + 1).last() == entries@[j as int]);
        }
    }
    proof {
        assert(entries@.take(n as int) =~= entries@);
    }
    results
}

/// Run the first pass over the whole loops list.
fn p1_check_loops(loops: &Vec<DocumentNode>, seen: &mut Vec<(i64, Option<i64>)>) -> (r: ValidationResults)
    ensures
        r@ == p1_loops(loops@, old(seen)@).0,
        final(seen)@ == p1_loops(loops@, old(seen)@).1,
{
    let mut results = ValidationResults::new();
    proof {
        assert(loops@.take(0) =~= Seq::<DocumentNode>::empty());
    }
    let n = loops.len();
    for i in 0..n
        invariant
            n == loops@.len(),
            results@ == p1_loops(loops@.take(i as int), old(seen)@).0,
            seen@ == p1_loops(loops@.take(i as int), old(seen)@).1,
    {
        let ghost prev = results@;
        match &loops[i] {
            DocumentNode::Mapping(entries) => {
                results.combine(p1_check_entries(entries, seen));
            },
            _ => {},
        }
        proof {
            assert(loops@.take(i + 1).drop_last() =~= loops@.take(i as int));
            assert(loops@.take(i + 1).last() == loops@[i as int]);
            lemma_merge_identity(prev);
        }
    }
    proof {
        assert(loops@.take(n as int) =~= loops@);
    }
    results
}

/// Run the second pass over the entries of one loop mapping.
fn p2_check_entries(
    entries: &Vec<(DocumentNode, DocumentNode)>,
    seen: &Vec<(i64, Option<i64>)>,
) -> (r: ValidationResults)
    ensures
        r@ == p2_entries(entries@, seen@),
{
    let mut results = ValidationResults::new();
    proof {
        assert(entries@.take(0) =~= Seq::<(DocumentNode, DocumentNode)>::empty());
    }
    let n = entries.len();
    for j in 0..n
        invariant
            n == entries@.len(),
            results@ == p2_entries(entries@.take(j as int), seen@),
    {
        let ghost prev = results@;
        let entry = &entries[j];
        match &entry.0 {
            DocumentNode::Text(name) => {
                let position = match doc_get(&entry.1, "Position") {
                    Some(DocumentNode::Integer(p)) => Some(*p),
                    _ => None,
                };
                let linked = match doc_get(&entry.1, "Linked From Position") {
                    Some(DocumentNode::Integer(lp)) => Some(*lp),
                    _ => None,
                };
                let distance = match doc_get(&entry.1, "Distance") {
                    Some(DocumentNode::Integer(d)) => Some(*d),
                    _ => None,
                };
                match (position, linked, distance) {
                    (Some(p), Some(lp), Some(d)) => {
                        match seen_lookup(seen, lp) {
                            None => {
                                results.combine(ValidationResults::failing(build_link_not_found(name.as_str(), p)));
                            },
                            Some(found) => match found {
                                Some(ld) => {
                                    if ld >= d {
                                        results.combine(ValidationResults::failing(build_link_distance(name.as_str(), p)));
                                    } else {
                                        proof {
                                            lemma_merge_identity(prev);
                                        }
                                    }
                                },
                                None => {
                                    proof {
                                        lemma_merge_identity(prev);
                                    }
                                },
                            },
                        }
                    },
                    _ => {
                        proof {
                            lemma_merge_identity(prev);
                        }
                    },
                }
            },
            _ => {
                proof {
                    lemma_merge_identity(prev);
                }
            },
        }
        proof {
            assert(entries@.take(j + 1).drop_last() =~= entries@.take(j as int));
            assert(entries@.take(j + 1).last() == entries@[j as int]);
        }
    }
    proof {
        assert(entries@.take(n as int) =~= entries@);
    }
    results
}

/// Run the second pass over the whole loops list.
fn p2_check_loops(loops: &Vec<DocumentNode>, seen: &Vec<(i64, Option<i64>)>) -> (r: ValidationResults)
    ensures
        r@ == p2_loops(loops@, seen@),
{
    let mut results = ValidationResults::new();
    proof {
        assert(loops@.take(0) =~= Seq::<DocumentNode>::empty());
    }
    let n = loops.len();
    for i in 0..n
        invariant
            n == loops@.len(),
            results@ == p2_loops(loops@.take(i as int), seen@),
    {
        let ghost prev = results@;
        match &loops[i] {
            DocumentNode::Mapping(entries) => {
                results.combine(p2_check_entries(entries, seen));
            },
            _ => {},
        }
        proof {
            assert(loops@.take(i + 1).drop_last() =~= loops@.take(i as int));
            assert(loops@.take(i + 1).last() == loops@[i as int]);
            lemma_merge_identity(prev);
        }
    }
    proof {
        assert(loops@.take(n as int) =~= loops@);
    }
    results
}

/// Check that position values are unique across the material loops and that
/// every linked-from position points at a recorded loop of strictly smaller
/// distance.
pub fn validate_unique_positions(material_loops: &Vec<DocumentNode>) -> (r: ValidationResults)
    ensures
        r@ == sv_unique_positions(material_loops@),
{
    let mut seen: Vec<(i64, Option<i64>)> = Vec::new();
    proof {
        assert(seen@ =~= Seq::<(i64, Option<i64>)>::empty());
    }
    let mut results = p1_check_loops(material_loops, &mut seen);
    results.combine(p2_check_loops(material_loops, &seen));
    results
}

/// Two material loops that declare the same position: the uniqueness check
/// reports the first as new and the second as a duplicate — exactly one
/// duplicate-position fail message, and nothing else, when neither loop
/// declares an integer `Linked From Position`.
pub proof fn lemma_duplicate_position_reported(
    loops: Seq<DocumentNode>,
    na: Seq<char>,
    nb: Seq<char>,
    d0: DocumentNode,
    d1: DocumentNode,
    p: i64,
)
    requires
        loops.len() == 2,
        ({
            &&& loops[0] matches DocumentNode::Mapping(e)
            &&& e@.len() == 1
            &&& e@[0].0 matches DocumentNode::Text(s) && s@ == na
            &&& e@[0].1 == d0
        }),
        ({
            &&& loops[1] matches DocumentNode::Mapping(e)
            &&& e@.len() == 1
            &&& e@[0].0 matches DocumentNode::Text(s) && s@ == nb
            &&& e@[0].1 == d1
        }),
        doc_lookup(d0, "Position"@) == DocumentNode::Integer(p),
        doc_lookup(d1, "Position"@) == DocumentNode::Integer(p),
        !(doc_lookup(d0, "Linked From Position"@) matches DocumentNode::Integer(_)),
        !(doc_lookup(d1, "Linked From Position"@) matches DocumentNode::Integer(_)),
    ensures
        sv_unique_positions(loops) == (ResultModel {
            valid: false,
            pass: seq![msg_new_position(na, p as int)],
            fail: seq![msg_duplicate_position(nb, p as int)],
        }),
{
    let empty_seen = Seq::<(i64, Option<i64>)>::empty();
    let first = seq![loops[0]];
    assert(loops.drop_last() =~= first);
    assert(first.drop_last() =~= Seq::<DocumentNode>::empty());
    assert(first.last() == loops[0]);
    assert(loops.last() == loops[1]);

    match loops[0] {
        DocumentNode::Mapping(e0) => match loops[1] {
            DocumentNode::Mapping(e1) => {
                assert(e0@.drop_last() =~= Seq::<(DocumentNode, DocumentNode)>::empty());
                assert(e1@.drop_last() =~= Seq::<(DocumentNode, DocumentNode)>::empty());
                assert(e0@.last() == e0@[0]);
                assert(e1@.last() == e1@[0]);

                let no_entries = Seq::<(DocumentNode, DocumentNode)>::empty();
                let no_loops = Seq::<DocumentNode>::empty();
                let seen1 = empty_seen.push((p, spec_distance_of(d0)));
                assert(p1_entries(no_entries, empty_seen) == (empty_result(), empty_seen));
                assert(p1_entries(no_entries, seen1) == (empty_result(), seen1));
                assert(p1_loops(no_loops, empty_seen) == (empty_result(), empty_seen));
                assert(p2_entries(no_entries, seen1) == empty_result());
                assert(p2_loops(no_loops, seen1) == empty_result());

                // first pass, first loop: the position is new
                assert(seen_find(empty_seen, p) is None);
                assert(p1_entry(e0@[0].0, e0@[0].1, empty_seen)
                    == (pass_result(msg_new_position(na, p as int)), seen1));
                let r_first = p1_entries(e0@, empty_seen);
                assert(r_first == (merge(empty_result(), pass_result(msg_new_position(na, p as int))), seen1));
                let r_one = p1_loops(first, empty_seen);
                assert(r_one.0 == merge(empty_result(), r_first.0) && r_one.1 == seen1);

                // first pass, second loop: the position is a duplicate
                assert(seen_find(seen1, p) == Some(spec_distance_of(d0)));
                assert(p1_entry(e1@[0].0, e1@[0].1, seen1)
                    == (fail_result(msg_duplicate_position(nb, p as int)), seen1));
                let r_second = p1_entries(e1@, seen1);
                assert(r_second == (merge(empty_result(), fail_result(msg_duplicate_position(nb, p as int))), seen1));
                let r_all = p1_loops(loops, empty_seen);
                assert(r_all.0 == merge(r_one.0, r_second.0) && r_all.1 == seen1);

                // second pass: neither loop declares an integer link
                assert(p2_entry(e0@[0].0, e0@[0].1, seen1) == empty_result());
                assert(p2_entry(e1@[0].0, e1@[0].1, seen1) == empty_result());
                assert(p2_entries(e0@, seen1) == merge(empty_result(), empty_result()));
                assert(p2_entries(e1@, seen1) == merge(empty_result(), empty_result()));
                assert(p2_loops(first, seen1)
                    == merge(p2_loops(no_loops, seen1), p2_entries(e0@, seen1)));
                assert(p2_loops(loops, seen1)
                    == merge(p2_loops(first, seen1), p2_entries(e1@, seen1)));

                assert(sv_unique_positions(loops) =~= ResultModel {
                    valid: false,
                    pass: seq![msg_new_position(na, p as int)],
                    fail: seq![msg_duplicate_position(nb, p as int)],
                });
            },
            _ => {},
        },
        _ => {},
    }
}

/// The checks for one (effect name, details) pair of a loop level: the
/// `Element` list is always required; `Recipe` (value-checked against the
/// materials) and `Required Alchemy Level` are required exactly when the
/// effect is `Recipe Morph`.  The messages are prefixed with the effect
/// name.  A pair whose effect name is not a string goes unremarked.
pub open spec fn sv_level_entry(effect: DocumentNode, details: DocumentNode, sets: SetsModel) -> ResultModel {
    match effect {
        DocumentNode::Text(e) => prefixed_result(
            e@,
            merge(
                merge(
                    sv_list(details, "Element"@, sets.elements, true),
                    sv_key_and_value(details, "Recipe"@, sets.materials, e@ == "Recipe Morph"@),
                ),
                sv_key(details, "Required Alchemy Level"@, e@ == "Recipe Morph"@),
            ),
        ),
        _ => empty_result(),
    }
}

/// The checks for all pairs of one level mapping, in order.
pub open spec fn sv_level_entries(entries: Seq<(DocumentNode, DocumentNode)>, sets: SetsModel) -> ResultModel
    decreases entries.len(),
{
    if entries.len() == 0 {
        empty_result()
    } else {
        merge(
            sv_level_entries(entries.drop_last(), sets),
            sv_level_entry(entries.last().0, entries.last().1, sets),
        )
    }
}

/// The checks for all elements of the `Levels` sequence; elements that are
/// not mappings go unremarked.
pub open spec fn sv_levels_list(levels: Seq<DocumentNode>, sets: SetsModel) -> ResultModel
    decreases levels.len(),
{
    if levels.len() == 0 {
        empty_result()
    } else {
        merge(
            sv_levels_list(levels.drop_last(), sets),
            match levels.last() {
                DocumentNode::Mapping(entries) => sv_level_entries(entries@, sets),
                _ => empty_result(),
            },
        )
    }
}

/// The result of validating a loop's `Levels` value; a value that is
/// missing or not a sequence goes unremarked.
pub open spec fn sv_loop_levels(node: DocumentNode, sets: SetsModel) -> ResultModel {
    match node {
        DocumentNode::List(levels) => sv_levels_list(levels@, sets),
        _ => empty_result(),
    }
}

/// The checks for one (loop name, details) entry of a material loop:
/// `Distance`, `Position` and `Material` are required, `Material` is
/// value-checked against the materials; `Linked From Position` and the
/// `Unlock` list are optional; the `Levels` value is validated in turn.
/// When the loop name is a string, the messages are prefixed with it.
pub open spec fn sv_loop_entry(name: DocumentNode, details: DocumentNode, sets: SetsModel) -> ResultModel {
    let body = merge(
        merge(
            merge(
                merge(
                    merge(
                        sv_key(details, "Distance"@, true),
                        sv_key(details, "Position"@, true),
                    ),
                    sv_key_and_value(details, "Material"@, sets.materials, true),
                ),
                sv_key(details, "Linked From Position"@, false),
            ),
            sv_list(details, "Unlock"@, sets.elements, false),
        ),
        sv_loop_levels(doc_lookup(details, "Levels"@), sets),
    );
    match name {
        DocumentNode::Text(n) => prefixed_result(n@, body),
        _ => body,
    }
}

/// The checks for all entries of one material loop mapping, in order.
pub open spec fn sv_loop_entries(entries: Seq<(DocumentNode, DocumentNode)>, sets: SetsModel) -> ResultModel
    decreases entries.len(),
{
    if entries.len() == 0 {
        empty_result()
    } else {
        merge(
            sv_loop_entries(entries.drop_last(), sets),
            sv_loop_entry(entries.last().0, entries.last().1, sets),
        )
    }
}

/// The result of validating one element of the loops list: a mapping is
/// checked entry by entry; any other shape is a malformed loop.
pub open spec fn sv_loop_contents(node: DocumentNode, sets: SetsModel) -> ResultModel {
    match node {
        DocumentNode::Mapping(entries) => sv_loop_entries(entries@, sets),
        _ => fail_result(msg_malformed_loop()),
    }
}

/// The per-loop content checks over the whole loops list, in order.
pub open spec fn sv_loops_contents(loops: Seq<DocumentNode>, sets: SetsModel) -> ResultModel
    decreases loops.len(),
{
    if loops.len() == 0 {
        empty_result()
    } else {
        merge(
            sv_loops_contents(loops.drop_last(), sets),
            sv_loop_contents(loops.last(), sets),
        )
    }
}

/// The result of validating the `Material Loops` value: it must be a
/// non-missing sequence; its loops are then checked for position
/// uniqueness, link distances, and per-loop contents.
pub open spec fn sv_material_loops(node: DocumentNode, sets: SetsModel) -> ResultModel {
    match node {
        DocumentNode::Missing => fail_result(msg_loops_missing()),
        DocumentNode::List(loops) => merge(
            sv_unique_positions(loops@),
            sv_loops_contents(loops@, sets),
        ),
        _ => fail_result(msg_loops_not_list()),
    }
}

/// The result of validating the `Synthesis` value: a missing value is a
/// single failure; otherwise `Required Materials` must be present and the
/// `Material Loops` value is validated, all messages prefixed with
/// `Synthesis`.
pub open spec fn sv_synthesis(node: DocumentNode, sets: SetsModel) -> ResultModel {
    if (node matches DocumentNode::Missing) {
        fail_result(msg_synthesis_missing())
    } else {
        prefixed_result(
            "Synthesis"@,
            merge(
                sv_key(node, "Required Materials"@, true),
                sv_material_loops(doc_lookup(node, "Material Loops"@), sets),
            ),
        )
    }
}

/// The first uniqueness pass is well formed, whatever positions were
/// already seen.
pub proof fn lemma_p1_wf(loops: Seq<DocumentNode>, seen: Seq<(i64, Option<i64>)>)
    ensures
        wf_result(p1_loops(loops, seen).0),
    decreases loops.len(),
{
    if loops.len() > 0 {
        lemma_p1_wf(loops.drop_last(), seen);
        match loops.last() {
            DocumentNode::Mapping(entries) => {
                lemma_p1_entries_wf(entries@, p1_loops(loops.drop_last(), seen).1);
            },
            _ => {},
        }
    }
}

/// The first uniqueness pass over one loop's entries is well formed.
pub proof fn lemma_p1_entries_wf(
    entries: Seq<(DocumentNode, DocumentNode)>,
    seen: Seq<(i64, Option<i64>)>,
)
    ensures
        wf_result(p1_entries(entries, seen).0),
    decreases entries.len(),
{
    if entries.len() > 0 {
        lemma_p1_entries_wf(entries.drop_last(), seen);
    }
}

/// The link-distance pass over one loop's entries is well formed.
pub proof fn lemma_p2_entries_wf(
    entries: Seq<(DocumentNode, DocumentNode)>,
    seen: Seq<(i64, Option<i64>)>,
)
    ensures
        wf_result(p2_entries(entries, seen)),
    decreases entries.len(),
{
    if entries.len() > 0 {
        lemma_p2_entries_wf(entries.drop_last(), seen);
    }
}

/// The link-distance pass is well formed.
pub proof fn lemma_p2_wf(loops: Seq<DocumentNode>, seen: Seq<(i64, Option<i64>)>)
    ensures
        wf_result(p2_loops(loops, seen)),
    decreases loops.len(),
{
    if loops.len() > 0 {
        lemma_p2_wf(loops.drop_last(), seen);
        match loops.last() {
            DocumentNode::Mapping(entries) => {
                lemma_p2_entries_wf(entries@, seen);
            },
            _ => {},
        }
    }
}

/// The whole uniqueness check is well formed.
pub proof fn lemma_sv_unique_positions_wf(loops: Seq<DocumentNode>)
    ensures
        wf_result(sv_unique_positions(loops)),
{
    let empty_seen = Seq::<(i64, Option<i64>)>::empty();
    lemma_p1_wf(loops, empty_seen);
    lemma_p2_wf(loops, p1_loops(loops, empty_seen).1);
}

/// The level-entry check is well formed.
pub proof fn lemma_sv_level_entry_wf(effect: DocumentNode, details: DocumentNode, sets: SetsModel)
    ensures
        wf_result(sv_level_entry(effect, details, sets)),
{
    match effect {
        DocumentNode::Text(e) => {
            let is_rm = e@ == "Recipe Morph"@;
            lemma_sv_list_wf(details, "Element"@, sets.elements, true);
            lemma_sv_key_and_value_wf(details, "Recipe"@, sets.materials, is_rm);
            lemma_sv_key_wf(details, "Required Alchemy Level"@, is_rm);
            lemma_prefixed_wf(
                e@,
                merge(
                    merge(
                        sv_list(details, "Element"@, sets.elements, true),
                        sv_key_and_value(details, "Recipe"@, sets.materials, is_rm),
                    ),
                    sv_key(details, "Required Alchemy Level"@, is_rm),
                ),
            );
        },
        _ => {},
    }
}

/// The level checks are well formed.
pub proof fn lemma_sv_level_entries_wf(entries: Seq<(DocumentNode, DocumentNode)>, sets: SetsModel)
    ensures
        wf_result(sv_level_entries(entries, sets)),
    decreases entries.len(),
{
    if entries.len() > 0 {
        lemma_sv_level_entries_wf(entries.drop_last(), sets);
        lemma_sv_level_entry_wf(entries.last().0, entries.last().1, sets);
    }
}

/// The checks over the `Levels` sequence are well formed.
pub proof fn lemma_sv_levels_list_wf(levels: Seq<DocumentNode>, sets: SetsModel)
    ensures
        wf_result(sv_levels_list(levels, sets)),
    decreases levels.len(),
{
    if levels.len() > 0 {
        lemma_sv_levels_list_wf(levels.drop_last(), sets);
        match levels.last() {
            DocumentNode::Mapping(entries) => {
                lemma_sv_level_entries_wf(entries@, sets);
            },
            _ => {},
        }
    }
}

/// The whole `Levels` check is well formed.
pub proof fn lemma_sv_loop_levels_wf(node: DocumentNode, sets: SetsModel)
    ensures
        wf_result(sv_loop_levels(node, sets)),
{
    match node {
        DocumentNode::List(levels) => {
            lemma_sv_levels_list_wf(levels@, sets);
        },
        _ => {},
    }
}

/// The per-entry loop check is well formed.
pub proof fn lemma_sv_loop_entry_wf(name: DocumentNode, details: DocumentNode, sets: SetsModel)
    ensures
        wf_result(sv_loop_entry(name, details, sets)),
{
    lemma_sv_key_wf(details, "Distance"@, true);
    lemma_sv_key_wf(details, "Position"@, true);
    lemma_sv_key_and_value_wf(details, "Material"@, sets.materials, true);
    lemma_sv_key_wf(details, "Linked From Position"@, false);
    lemma_sv_list_wf(details, "Unlock"@, sets.elements, false);
    lemma_sv_loop_levels_wf(doc_lookup(details, "Levels"@), sets);
    let body = merge(
        merge(
            merge(
                merge(
                    merge(
                        sv_key(details, "Distance"@, true),
                        sv_key(details, "Position"@, true),
                    ),
                    sv_key_and_value(details, "Material"@, sets.materials, true),
                ),
                sv_key(details, "Linked From Position"@, false),
            ),
            sv_list(details, "Unlock"@, sets.elements, false),
        ),
        sv_loop_levels(doc_lookup(details, "Levels"@), sets),
    );
    match name {
        DocumentNode::Text(n) => {
            lemma_prefixed_wf(n@, body);
        },
        _ => {},
    }
}

/// The checks over one loop mapping are well formed.
pub proof fn lemma_sv_loop_entries_wf(entries: Seq<(DocumentNode, DocumentNode)>, sets: SetsModel)
    ensures
        wf_result(sv_loop_entries(entries, sets)),
    decreases entries.len(),
{
    if entries.len() > 0 {
        lemma_sv_loop_entries_wf(entries.drop_last(), sets);
        lemma_sv_loop_entry_wf(entries.last().0, entries.last().1, sets);
    }
}

/// The per-loop content check is well formed.
pub proof fn lemma_sv_loop_contents_wf(node: DocumentNode, sets: SetsModel)
    ensures
        wf_result(sv_loop_contents(node, sets)),
{
    match node {
        DocumentNode::Mapping(entries) => {
            lemma_sv_loop_entries_wf(entries@, sets);
        },
        _ => {},
    }
}

/// The content checks over the whole loops list are well formed.
pub proof fn lemma_sv_loops_contents_wf(loops: Seq<DocumentNode>, sets: SetsModel)
    ensures
        wf_result(sv_loops_contents(loops, sets)),
    decreases loops.len(),
{
    if loops.len() > 0 {
        lemma_sv_loops_contents_wf(loops.drop_last(), sets);
        lemma_sv_loop_contents_wf(loops.last(), sets);
    }
}

/// The whole `Material Loops` check is well formed.
pub proof fn lemma_sv_material_loops_wf(node: DocumentNode, sets: SetsModel)
    ensures
        wf_result(sv_material_loops(node, sets)),
{
    match node {
        DocumentNode::List(loops) => {
            lemma_sv_unique_positions_wf(loops@);
            lemma_sv_loops_contents_wf(loops@, sets);
        },
        _ => {},
    }
}

/// The whole synthesis check is well formed: it is valid exactly when it
/// recorded no fail message.
pub proof fn lemma_sv_synthesis_wf(node: DocumentNode, sets: SetsModel)
    ensures
        wf_result(sv_synthesis(node, sets)),
{
    if !(node matches DocumentNode::Missing) {
        lemma_sv_key_wf(node, "Required Materials"@, true);
        lemma_sv_material_loops_wf(doc_lookup(node, "Material Loops"@), sets);
        lemma_prefixed_wf(
            "Synthesis"@,
            merge(
                sv_key(node, "Required Materials"@, true),
                sv_material_loops(doc_lookup(node, "Material Loops"@), sets),
            ),
        );
    }
}

/// Check one (effect name, details) pair of a loop level.
fn check_level_entry(effect: &DocumentNode, details: &DocumentNode, sets: &ItemValidationSets) -> (r: ValidationResults)
    ensures
        r@ == sv_level_entry(*effect, *details, sets@),
{
    match effect {
        DocumentNode::Text(e) => {
            let is_recipe_morph = str_eq(e.as_str(), "Recipe Morph");
            let mut body = validate_list(details, "Element", &sets.elements, true);
            body.combine(validate_key_and_value(details, "Recipe", &sets.materials, is_recipe_morph));
            body.combine(validate_key(details, "Required Alchemy Level", is_recipe_morph));
            with_prefix(e.as_str(), body)
        },
        _ => ValidationResults::new(),
    }
}

/// Check all pairs of one level mapping.
fn check_level_entries(entries: &Vec<(DocumentNode, DocumentNode)>, sets: &ItemValidationSets) -> (r: ValidationResults)
    ensures
        r@ == sv_level_entries(entries@, sets@),
{
    let mut results = ValidationResults::new();
    proof {
        assert(entries@.take(0) =~= Seq::<(DocumentNode, DocumentNode)>::empty());
    }
    let n = entries.len();
    for j in 0..n
        invariant
            n == entries@.len(),
            results@ == sv_level_entries(entries@.take(j as int), sets@),
    {
        let entry = &entries[j];
        results.combine(check_level_entry(&entry.0, &entry.1, sets));
        proof {
            assert(entries@.take(j + 1).drop_last() =~= entries@.take(j as int));
            assert(entries@.take(j + 1).last() == entries@[j as int]);
        }
    }
    proof {
        assert(entries@.take(n as int) =~= entries@);
    }
    results
}

/// Validate a loop's `Levels` value: each element that is a mapping is
/// checked pair by pair; anything else goes unremarked.
pub fn validate_loop_levels(node: &DocumentNode, sets: &ItemValidationSets) -> (r: ValidationResults)
    ensures
        r@ == sv_loop_levels(*node, sets@),
{
    match node {
        DocumentNode::List(levels) => {
            let mut results = ValidationResults::new();
            proof {
                assert(levels@.take(0) =~= Seq::<DocumentNode>::empty());
            }
            let n = levels.len();
            for i in 0..n
                invariant
                    n == levels@.len(),
                    results@ == sv_levels_list(levels@.take(i as int), sets@),
            {
                let ghost prev = results@;
                match &levels[i] {
                    DocumentNode::Mapping(entries) => {
                        results.combine(check_level_entries(entries, sets));
                    },
                    _ => {
                        proof {
                            lemma_merge_identity(prev);
                        }
                    },
                }
                proof {
                    assert(levels@.take(i + 1).drop_last() =~= levels@.take(i as int));
                    assert(levels@.take(i + 1).last() == levels@[i as int]);
                }
            }
            proof {
                assert(levels@.take(n as int) =~= levels@);
            }
            results
        },
        _ => ValidationResults::new(),
    }
}

/// Check one (loop name, details) entry of a material loop mapping.
fn check_loop_entry(name: &DocumentNode, details: &DocumentNode, sets: &ItemValidationSets) -> (r: ValidationResults)
    ensures
        r@ == sv_loop_entry(*name, *details, sets@),
{
    let mut body = validate_key(details, "Distance", true);
    body.combine(validate_key(details, "Position", true));
    body.combine(validate_key_and_value(details, "Material", &sets.materials, true));
    body.combine(validate_key(details, "Linked From Position", false));
    body.combine(validate_list(details, "Unlock", &sets.elements, false));
    let ghost before_levels = body@;
    match doc_get(details, "Levels") {
        Some(levels) => {
            body.combine(validate_loop_levels(levels, sets));
        },
        None => {
            proof {
                lemma_merge_identity(before_levels);
            }
        },
    }
    match name {
        DocumentNode::Text(n) => with_prefix(n.as_str(), body),
        _ => body,
    }
}

/// Validate one element of the loops list: a mapping is checked entry by
/// entry, with each entry's messages prefixed with its loop name; any other
/// shape is a malformed loop.
pub fn validate_material_loop_contents(node: &DocumentNode, sets: &ItemValidationSets) -> (r: ValidationResults)
    ensures
        r@ == sv_loop_contents(*node, sets@),
{
    match node {
        DocumentNode::Mapping(entries) => {
            let mut results = ValidationResults::new();
            proof {
                assert(entries@.take(0) =~= Seq::<(DocumentNode, DocumentNode)>::empty());
            }
            let n = entries.len();
            for j in 0..n
                invariant
                    n == entries@.len(),
                    results@ == sv_loop_entries(entries@.take(j as int), sets@),
            {
                let entry = &entries[j];
                results.combine(check_loop_entry(&entry.0, &entry.1, sets));
                proof {
                    assert(entries@.take(j + 1).drop_last() =~= entries@.take(j as int));
                    assert(entries@.take(j + 1).last() == entries@[j as int]);
                }
            }
            proof {
                assert(entries@.take(n as int) =~= entries@);
            }
            results
        },
        _ => ValidationResults::failing("Malformed material loop".to_owned()),
    }
}

/// Validate the `Material Loops` value: require a non-missing sequence,
/// then check position uniqueness, link distances, and every loop's
/// contents.
pub fn validate_material_loops(node: &DocumentNode, sets: &ItemValidationSets) -> (r: ValidationResults)
    ensures
        r@ == sv_material_loops(*node, sets@),
{
    match node {
        DocumentNode::Missing => ValidationResults::failing("Material Loops key is missing.".to_owned()),
        DocumentNode::List(loops) => {
            let mut results = validate_unique_positions(loops);
            let mut contents = ValidationResults::new();
            proof {
                assert(loops@.take(0) =~= Seq::<DocumentNode>::empty());
            }
            let n = loops.len();
            for i in 0..n
                invariant
                    n == loops@.len(),
                    contents@ == sv_loops_contents(loops@.take(i as int), sets@),
            {
                contents.combine(validate_material_loop_contents(&loops[i], sets));
                proof {
                    assert(loops@.take(i + 1).drop_last() =~= loops@.take(i as int));
                    assert(loops@.take(i + 1).last() == loops@[i as int]);
                }
            }
            proof {
                assert(loops@.take(n as int) =~= loops@);
            }
            results.combine(contents);
            results
        },
        _ => ValidationResults::failing("Material Loops key is not a list.".to_owned()),
    }
}

/// Validate the `Synthesis` value of an item: a missing value is a single
/// failure; otherwise `Required Materials` must be present and the
/// `Material Loops` value is validated, all messages prefixed with
/// `Synthesis`.
pub fn validate_synthesis(node: &DocumentNode, sets: &ItemValidationSets) -> (r: ValidationResults)
    ensures
        r@ == sv_synthesis(*node, sets@),
{
    match node {
        DocumentNode::Missing => ValidationResults::failing("Synthesis key is missing.".to_owned()),
        _ => {
            let mut body = validate_key(node, "Required Materials", true);
            match doc_get(node, "Material Loops") {
                Some(loops_value) => {
                    body.combine(validate_material_loops(loops_value, sets));
                },
                None => {
                    let missing = DocumentNode::Missing;
                    body.combine(validate_material_loops(&missing, sets));
                },
            }
            with_prefix("Synthesis", body)
        },
    }
}

} // verus!
