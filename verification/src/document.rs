//! The generic document tree that the validators walk.
//!
//! A parsed item definition is a tree of scalars, sequences and mappings.
//! [`DocumentNode::Missing`] is the sentinel for a failed field lookup, so
//! that the validators can tell a field that is absent from one that is
//! present with an unexpected shape ([`DocumentNode::Other`]).

use vstd::prelude::*;

verus! {

/// One node of a parsed document.
#[derive(Debug)]
pub enum DocumentNode {
    /// A scalar string value.
    Text(String),
    /// An integer value.
    Integer(i64),
    /// A sequence of nodes.
    List(Vec<DocumentNode>),
    /// A mapping from key nodes to value nodes, in document order.
    Mapping(Vec<(DocumentNode, DocumentNode)>),
    /// A value that is present but has none of the shapes above
    /// (for instance a boolean, a float, or an empty value).
    Other,
    /// The sentinel for a failed lookup: the field is absent.
    Missing,
}

/// The value of `key` among `entries`, reading the first entry whose key is
/// the scalar string `key`; `Missing` if there is none.
pub open spec fn lookup_entries(entries: Seq<(DocumentNode, DocumentNode)>, key: Seq<char>) -> DocumentNode
    decreases entries.len(),
{
    if entries.len() == 0 {
        DocumentNode::Missing
    } else if entries[0].0 matches DocumentNode::Text(s) && s@ == key {
        entries[0].1
    } else {
        lookup_entries(entries.drop_first(), key)
    }
}

/// The value of `key` in `node`: `Missing` when `node` is not a mapping or
/// has no entry keyed by the scalar string `key`.
pub open spec fn doc_lookup(node: DocumentNode, key: Seq<char>) -> DocumentNode {
    match node {
        DocumentNode::Mapping(entries) => lookup_entries(entries@, key),
        _ => DocumentNode::Missing,
    }
}

/// Relies on `str`'s `PartialEq`: two string slices are equal exactly when
/// their character sequences are.
#[verifier::external_body]
pub(crate) fn str_eq(a: &str, b: &str) -> (r: bool)
    ensures
        r == (a@ == b@),
{
    a == b
}

/// Look `key` up in `node`.  `None` means the lookup failed; `Some` hands
/// back the stored value, which the caller matches on.
pub fn doc_get<'a>(node: &'a DocumentNode, key: &str) -> (r: Option<&'a DocumentNode>)
    ensures
        match r {
            Some(v) => *v == doc_lookup(*node, key@),
            None => doc_lookup(*node, key@) == DocumentNode::Missing,
        },
{
    match node {
        DocumentNode::Mapping(entries) => {
            proof {
                assert(entries@.skip(0) =~= entries@);
            }
            let n = entries.len();
            for i in 0..n
                invariant
                    n == entries@.len(),
                    doc_lookup(*node, key@) == lookup_entries(entries@.skip(i as int), key@),
            {
                proof {
                    assert(entries@.skip(i as int)[0] == entries@[i as int]);
                }
                let entry = &entries[i];
                match &entry.0 {
                    DocumentNode::Text(s) => {
                        if str_eq(s.as_str(), key) {
                            proof {
                                assert(entries@.skip(i as int).drop_first() =~= entries@.skip(i + 1));
                            }
                            return Some(&entry.1);
                        }
                    },
                    _ => {},
                }
                proof {
                    assert(entries@.skip(i as int).drop_first() =~= entries@.skip(i + 1));
                }
            }
            proof {
                assert(entries@.skip(n as int) =~= Seq::<(DocumentNode, DocumentNode)>::empty());
            }
            None
        },
        _ => None,
    }
}

} // verus!
