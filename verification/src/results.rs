//! The result value that every validation step produces, and its merge
//! operation.
//!
//! A `ValidationResults` holds an overall validity flag and two ordered
//! message lists (pass and fail).  Every validator returns a fresh value;
//! results are combined with [`ValidationResults::combine`], whose meaning is
//! the pure [`merge`] on the mathematical model [`ResultModel`].

use vstd::prelude::*;
use crate::messages::{msg_prefixed, build_prefixed};

verus! {

/// Mathematical model of a validation result: the validity flag and the two
/// message sequences, each message a sequence of characters.
#[verifier::ext_equal]
pub struct ResultModel {
    pub valid: bool,
    pub pass: Seq<Seq<char>>,
    pub fail: Seq<Seq<char>>,
}

/// The all-true result with no messages: the identity of [`merge`].
pub open spec fn empty_result() -> ResultModel {
    ResultModel { valid: true, pass: Seq::empty(), fail: Seq::empty() }
}

/// A result holding exactly one pass message.
pub open spec fn pass_result(m: Seq<char>) -> ResultModel {
    ResultModel { valid: true, pass: seq![m], fail: Seq::empty() }
}

/// A result holding exactly one fail message.  Recording a fail message
/// always clears the validity flag, so that a result is valid exactly when
/// no contributing check ever recorded a fail message.
pub open spec fn fail_result(m: Seq<char>) -> ResultModel {
    ResultModel { valid: false, pass: Seq::empty(), fail: seq![m] }
}

/// Combining two results: both must be valid, and the message lists are
/// concatenated in order.
pub open spec fn merge(a: ResultModel, b: ResultModel) -> ResultModel {
    ResultModel { valid: a.valid && b.valid, pass: a.pass + b.pass, fail: a.fail + b.fail }
}

/// The view of a sequence of `String`s: their character sequences, in order.
pub open spec fn strs_view(v: Seq<String>) -> Seq<Seq<char>> {
    v.map_values(|s: String| s@)
}

/// Merge is associative: results may be accumulated in any grouping.
pub proof fn lemma_merge_associative(a: ResultModel, b: ResultModel, c: ResultModel)
    ensures
        merge(merge(a, b), c) == merge(a, merge(b, c)),
{
    assert(merge(merge(a, b), c) =~= merge(a, merge(b, c)));
}

/// The empty result is a left and right identity of merge.
pub proof fn lemma_merge_identity(a: ResultModel)
    ensures
        merge(empty_result(), a) == a,
        merge(a, empty_result()) == a,
{
    assert(merge(empty_result(), a) =~= a);
    assert(merge(a, empty_result()) =~= a);
}

/// A fail message of either part is a fail message of the merged result.
pub proof fn lemma_merge_keeps_fail(a: ResultModel, b: ResultModel, m: Seq<char>)
    requires
        a.fail.contains(m) || b.fail.contains(m),
    ensures
        merge(a, b).fail.contains(m),
{
    if a.fail.contains(m) {
        let k = choose|k: int| 0 <= k < a.fail.len() && a.fail[k] == m;
        assert(merge(a, b).fail[k] == m);
    } else {
        let k = choose|k: int| 0 <= k < b.fail.len() && b.fail[k] == m;
        assert(merge(a, b).fail[a.fail.len() + k] == m);
    }
}

/// A result is well formed when its validity flag agrees with its fail
/// messages: valid exactly when none was ever recorded.
pub open spec fn wf_result(r: ResultModel) -> bool {
    r.valid == (r.fail.len() == 0)
}

/// Merging two well-formed results gives a well-formed result.
pub proof fn lemma_merge_wf(a: ResultModel, b: ResultModel)
    requires
        wf_result(a),
        wf_result(b),
    ensures
        wf_result(merge(a, b)),
{
}

/// Prefixing messages changes neither validity nor the number of fail
/// messages, so it preserves well-formedness.
pub proof fn lemma_prefixed_wf(p: Seq<char>, r: ResultModel)
    requires
        wf_result(r),
    ensures
        wf_result(prefixed_result(p, r)),
{
}

/// A result whose validity flag is true iff no fail message was ever
/// recorded while it was built.
pub struct ValidationResults {
    pub valid: bool,
    pub pass_messages: Vec<String>,
    pub fail_messages: Vec<String>,
}

impl View for ValidationResults {
    type V = ResultModel;

    open spec fn view(&self) -> ResultModel {
        ResultModel {
            valid: self.valid,
            pass: strs_view(self.pass_messages@),
            fail: strs_view(self.fail_messages@),
        }
    }
}

impl ValidationResults {
    /// The all-true result with no messages.
    pub fn new() -> (r: ValidationResults)
        ensures
            r@ == empty_result(),
    {
        let r = ValidationResults { valid: true, pass_messages: Vec::new(), fail_messages: Vec::new() };
        proof {
            assert(r@ =~= empty_result());
        }
        r
    }

    /// A result holding exactly one pass message.
    pub fn passing(m: String) -> (r: ValidationResults)
        ensures
            r@ == pass_result(m@),
    {
        let mut pass_messages: Vec<String> = Vec::new();
        pass_messages.push(m);
        let r = ValidationResults { valid: true, pass_messages, fail_messages: Vec::new() };
        proof {
            assert(r@.pass =~= seq![m@]);
            assert(r@ =~= pass_result(m@));
        }
        r
    }

    /// A result holding exactly one fail message; it is invalid.
    pub fn failing(m: String) -> (r: ValidationResults)
        ensures
            r@ == fail_result(m@),
    {
        let mut fail_messages: Vec<String> = Vec::new();
        fail_messages.push(m);
        let r = ValidationResults { valid: false, pass_messages: Vec::new(), fail_messages };
        proof {
            assert(r@.fail =~= seq![m@]);
            assert(r@ =~= fail_result(m@));
        }
        r
    }

    /// Combine another result into this one: the meaning is [`merge`].
    pub fn combine(&mut self, other: ValidationResults)
        ensures
            final(self)@ == merge(old(self)@, other@),
    {
        let mut other = other;
        let ghost p0 = other.pass_messages@;
        let ghost f0 = other.fail_messages@;
        self.valid = self.valid && other.valid;
        self.pass_messages.append(&mut other.pass_messages);
        self.fail_messages.append(&mut other.fail_messages);
        proof {
            assert(strs_view(self.pass_messages@) =~= strs_view(old(self).pass_messages@) + strs_view(p0));
            assert(strs_view(self.fail_messages@) =~= strs_view(old(self).fail_messages@) + strs_view(f0));
            assert(self@ =~= merge(old(self)@, ResultModel { valid: other.valid, pass: strs_view(p0), fail: strs_view(f0) }));
        }
    }
}

/// Every message of `msgs`, prefixed with `prefix` and a separating colon.
pub open spec fn prefix_msgs(prefix: Seq<char>, msgs: Seq<Seq<char>>) -> Seq<Seq<char>> {
    msgs.map_values(|m: Seq<char>| msg_prefixed(prefix, m))
}

/// The result `r` with every message prefixed with `prefix`; validity is
/// unchanged.
pub open spec fn prefixed_result(prefix: Seq<char>, r: ResultModel) -> ResultModel {
    ResultModel { valid: r.valid, pass: prefix_msgs(prefix, r.pass), fail: prefix_msgs(prefix, r.fail) }
}

/// Prefix every message of `msgs` with `prefix`.
fn prefix_messages(prefix: &str, msgs: &Vec<String>) -> (out: Vec<String>)
    ensures
        strs_view(out@) == prefix_msgs(prefix@, strs_view(msgs@)),
{
    let mut out: Vec<String> = Vec::new();
    proof {
        assert(strs_view(out@) =~= prefix_msgs(prefix@, strs_view(msgs@.take(0))));
    }
    let n = msgs.len();
    for i in 0..n
        invariant
            n == msgs@.len(),
            strs_view(out@) == prefix_msgs(prefix@, strs_view(msgs@.take(i as int))),
    {
        let ghost out0 = out@;
        out.push(build_prefixed(prefix, msgs[i].as_str()));
        proof {
            assert(strs_view(out@) =~= strs_view(out0).push(msg_prefixed(prefix@, msgs@[i as int]@)));
            assert(strs_view(msgs@.take(i + 1)) =~= strs_view(msgs@.take(i as int)).push(msgs@[i as int]@));
            assert(prefix_msgs(prefix@, strs_view(msgs@.take(i as int)).push(msgs@[i as int]@))
                =~= prefix_msgs(prefix@, strs_view(msgs@.take(i as int))).push(msg_prefixed(prefix@, msgs@[i as int]@)));
            assert(strs_view(out@) =~= prefix_msgs(prefix@, strs_view(msgs@.take(i + 1))));
        }
    }
    proof {
        assert(msgs@.take(n as int) =~= msgs@);
    }
    out
}

/// The result `r` with every message prefixed with `prefix`.
pub fn with_prefix(prefix: &str, r: ValidationResults) -> (out: ValidationResults)
    ensures
        out@ == prefixed_result(prefix@, r@),
{
    let out = ValidationResults {
        valid: r.valid,
        pass_messages: prefix_messages(prefix, &r.pass_messages),
        fail_messages: prefix_messages(prefix, &r.fail_messages),
    };
    proof {
        assert(out@ =~= prefixed_result(prefix@, r@));
    }
    out
}

} // verus!
