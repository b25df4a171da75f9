//! The vocabulary sets: five collections of allowed string values, built
//! once from the master list document and read-only thereafter.
//!
//! Each collection is kept as a vector without duplicates; only membership
//! matters to the validators.

use vstd::prelude::*;
use crate::document::{DocumentNode, doc_lookup};
use crate::field_checks::vocab_contains;
use crate::results::strs_view;

verus! {

/// Mathematical model of the five vocabularies: the allowed strings of each,
/// in first-seen order.
#[verifier::ext_equal]
pub struct SetsModel {
    pub elements: Seq<Seq<char>>,
    pub categories: Seq<Seq<char>>,
    pub classifications: Seq<Seq<char>>,
    pub gathering_tools: Seq<Seq<char>>,
    pub materials: Seq<Seq<char>>,
}

/// The five vocabularies of allowed string values.
#[derive(Debug)]
pub struct ItemValidationSets {
    pub elements: Vec<String>,
    pub categories: Vec<String>,
    pub classifications: Vec<String>,
    pub gathering_tools: Vec<String>,
    pub materials: Vec<String>,
}

impl View for ItemValidationSets {
    type V = SetsModel;

    open spec fn view(&self) -> SetsModel {
        SetsModel {
            elements: strs_view(self.elements@),
            categories: strs_view(self.categories@),
            classifications: strs_view(self.classifications@),
            gathering_tools: strs_view(self.gathering_tools@),
            materials: strs_view(self.materials@),
        }
    }
}

/// The model of the empty vocabularies.
pub open spec fn empty_sets() -> SetsModel {
    SetsModel {
        elements: Seq::empty(),
        categories: Seq::empty(),
        classifications: Seq::empty(),
        gathering_tools: Seq::empty(),
        materials: Seq::empty(),
    }
}

impl ItemValidationSets {
    /// Five empty vocabularies.
    pub fn new() -> (r: ItemValidationSets)
        ensures
            r@ == empty_sets(),
    {
        let r = ItemValidationSets {
            elements: Vec::new(),
            categories: Vec::new(),
            classifications: Vec::new(),
            gathering_tools: Vec::new(),
            materials: Vec::new(),
        };
        proof {
            assert(r@ =~= empty_sets());
        }
        r
    }
}

/// `acc` extended with every scalar string among `elems` that it does not
/// already hold, in order; duplicates collapse silently.
pub open spec fn spec_add_elems(elems: Seq<DocumentNode>, acc: Seq<Seq<char>>) -> Seq<Seq<char>>
    decreases elems.len(),
{
    if elems.len() == 0 {
        acc
    } else {
        let a = spec_add_elems(elems.drop_last(), acc);
        match elems.last() {
            DocumentNode::Text(s) => if a.contains(s@) {
                a
            } else {
                a.push(s@)
            },
            _ => a,
        }
    }
}

/// `acc` extended with the strings of the list at `key` in `doc`; a key that
/// is missing or not a list contributes nothing.
pub open spec fn spec_add_to_set(doc: DocumentNode, key: Seq<char>, acc: Seq<Seq<char>>) -> Seq<Seq<char>> {
    match doc_lookup(doc, key) {
        DocumentNode::List(elems) => spec_add_elems(elems@, acc),
        _ => acc,
    }
}

/// The five vocabularies read from the master list document.  The materials
/// vocabulary is seeded from the same source list as the categories.
pub open spec fn spec_build_sets(doc: DocumentNode) -> SetsModel {
    SetsModel {
        elements: spec_add_to_set(doc, "Elements"@, Seq::empty()),
        categories: spec_add_to_set(doc, "Item Categories"@, Seq::empty()),
        classifications: spec_add_to_set(doc, "Item Classifications"@, Seq::empty()),
        gathering_tools: spec_add_to_set(doc, "Gathering Tools"@, Seq::empty()),
        materials: spec_add_to_set(doc, "Item Categories"@, Seq::empty()),
    }
}

/// Adding strings never introduces a duplicate.
pub proof fn lemma_add_elems_no_duplicates(elems: Seq<DocumentNode>, acc: Seq<Seq<char>>)
    requires
        acc.no_duplicates(),
    ensures
        spec_add_elems(elems, acc).no_duplicates(),
    decreases elems.len(),
{
    if elems.len() > 0 {
        lemma_add_elems_no_duplicates(elems.drop_last(), acc);
        let a = spec_add_elems(elems.drop_last(), acc);
        match elems.last() {
            DocumentNode::Text(s) => {
                if !a.contains(s@) {
                    assert forall|i: int, j: int|
                        0 <= i < a.push(s@).len() && 0 <= j < a.push(s@).len() && i != j
                        implies a.push(s@)[i] != a.push(s@)[j] by {
                        if i < a.len() && j < a.len() {
                            assert(a[i] != a[j]);
                        } else if i < a.len() {
                            assert(a.contains(a[i]));
                        } else if j < a.len() {
                            assert(a.contains(a[j]));
                        }
                    }
                }
            },
            _ => {},
        }
    }
}

/// Add every scalar string of the list at `key` in `doc` to `set`, skipping
/// the ones already there.
fn add_to_set(doc: &DocumentNode, key: &str, set: &mut Vec<String>)
    ensures
        strs_view(final(set)@) == spec_add_to_set(*doc, key@, strs_view(old(set)@)),
{
    match crate::document::doc_get(doc, key) {
        Some(value) => match value {
            DocumentNode::List(elems) => {
                proof {
                    assert(elems@.take(0) =~= Seq::<DocumentNode>::empty());
                }
                let n = elems.len();
                for i in 0..n
                    invariant
                        n == elems@.len(),
                        strs_view(set@) == spec_add_elems(elems@.take(i as int), strs_view(old(set)@)),
                {
                    match &elems[i] {
                        DocumentNode::Text(s) => {
                            if !vocab_contains(set, s.as_str()) {
                                let ghost before = set@;
                                set.push(s.clone());
                                proof {
                                    assert(strs_view(set@) =~= strs_view(before).push(s@));
                                }
                            }
                        },
                        _ => {},
                    }
                    proof {
                        assert(elems@.take(i + 1).drop_last() =~= elems@.take(i as int));
                        assert(elems@.take(i + 1).last() == elems@[i as int]);
                    }
                }
                proof {
                    assert(elems@.take(n as int) =~= elems@);
                }
            },
            _ => {},
        },
        None => {},
    }
}

/// Build the five vocabularies from the master list document.  For each of
/// the known top-level keys, a key that resolves to a sequence of scalar
/// strings fills the matching vocabulary; a key that is missing or has
/// another shape leaves it empty.  No vocabulary holds a duplicate.
pub fn build_sets_from_document(doc: &DocumentNode) -> (r: ItemValidationSets)
    ensures
        r@ == spec_build_sets(*doc),
        r@.elements.no_duplicates(),
        r@.categories.no_duplicates(),
        r@.classifications.no_duplicates(),
        r@.gathering_tools.no_duplicates(),
        r@.materials.no_duplicates(),
{
    let mut sets = ItemValidationSets::new();
    add_to_set(doc, "Item Categories", &mut sets.categories);
    add_to_set(doc, "Item Categories", &mut sets.materials);
    add_to_set(doc, "Item Classifications", &mut sets.classifications);
    add_to_set(doc, "Elements", &mut sets.elements);
    add_to_set(doc, "Gathering Tools", &mut sets.gathering_tools);
    proof {
        assert(strs_view(Seq::<String>::empty()) =~= Seq::<Seq<char>>::empty());
        assert(sets@ =~= spec_build_sets(*doc));
        let e = Seq::<Seq<char>>::empty();
        assert(e.no_duplicates());
        match doc_lookup(*doc, "Item Categories"@) {
            DocumentNode::List(elems) => {
                lemma_add_elems_no_duplicates(elems@, e);
            },
            _ => {},
        }
        match doc_lookup(*doc, "Item Classifications"@) {
            DocumentNode::List(elems) => {
                lemma_add_elems_no_duplicates(elems@, e);
            },
            _ => {},
        }
        match doc_lookup(*doc, "Elements"@) {
            DocumentNode::List(elems) => {
                lemma_add_elems_no_duplicates(elems@, e);
            },
            _ => {},
        }
        match doc_lookup(*doc, "Gathering Tools"@) {
            DocumentNode::List(elems) => {
                lemma_add_elems_no_duplicates(elems@, e);
            },
            _ => {},
        }
    }
    sets
}

} // verus!
