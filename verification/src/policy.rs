//! The statement policy filter: a pure classification of a parsed batch that
//! rejects it atomically when any statement kind is blocked.

use vstd::prelude::*;
use crate::kinds::{StmtKind, is_blocked, all_allowed, kind_is_blocked};

verus! {

/// Rejection of a whole batch because it contains a blocked statement kind.
/// Carries the first blocked kind found, in statement order.
#[derive(Clone, Copy, PartialEq, Eq, Structural, Debug)]
pub struct PolicyViolation {
    pub kind: StmtKind,
}

impl PolicyViolation {
    /// The generic safety message reported to the caller; it names the
    /// disallowed category only generically, never the matched statement.
    pub fn message(&self) -> (m: String)
        ensures
            m@ == "Your SQL contains operations that are not allowed for safety reasons (e.g., DROP, ALTER, TRUNCATE, etc.)."@,
    {
        "Your SQL contains operations that are not allowed for safety reasons (e.g., DROP, ALTER, TRUNCATE, etc.).".to_owned()
    }
}

/// A batch holding a blocked kind anywhere is unclean, regardless of the
/// position of that statement or of the other statements around it.
pub proof fn lemma_blocked_anywhere_rejects(ks: Seq<StmtKind>, i: int)
    requires
        0 <= i < ks.len(),
        is_blocked(ks[i]),
    ensures
        !all_allowed(ks),
{
}

/// Index of the first blocked kind in `ks`; meaningful only when one exists.
pub open spec fn first_blocked(ks: Seq<StmtKind>) -> int
    decreases ks.len(),
{
    if ks.len() == 0 {
        0
    } else if is_blocked(ks[0]) {
        0
    } else {
        1 + first_blocked(ks.skip(1))
    }
}

/// When some kind in `ks` is blocked, `first_blocked` points at a blocked
/// kind and everything before it is allowed.
pub proof fn lemma_first_blocked(ks: Seq<StmtKind>)
    requires
        !all_allowed(ks),
    ensures
        0 <= first_blocked(ks) < ks.len(),
        is_blocked(ks[first_blocked(ks)]),
        forall|j: int| 0 <= j < first_blocked(ks) ==> !is_blocked(ks[j]),
    decreases ks.len(),
{
    if ks.len() == 0 {
    } else if is_blocked(ks[0]) {
    } else {
        assert(!all_allowed(ks.skip(1))) by {
            let i = choose|i: int| 0 <= i < ks.len() && is_blocked(ks[i]);
            assert(ks.skip(1)[i - 1] == ks[i]);
        }
        lemma_first_blocked(ks.skip(1));
        assert forall|j: int| 0 <= j < first_blocked(ks) implies !is_blocked(ks[j]) by {
            if j > 0 {
                assert(ks.skip(1)[j - 1] == ks[j]);
            }
        }
        assert(ks.skip(1)[first_blocked(ks.skip(1))] == ks[first_blocked(ks)]);
    }
}

/// Walk every statement kind of the batch; reject the whole batch on the
/// first blocked kind, in statement order, with no side effect.
pub fn classify(kinds: &Vec<StmtKind>) -> (r: Result<(), PolicyViolation>)
    ensures
        r is Ok <==> all_allowed(kinds@),
        r matches Err(v) ==> v.kind == kinds@[first_blocked(kinds@)],
{
    let n = kinds.len();
    for i in 0..n
        invariant
            n == kinds@.len(),
            forall|j: int| 0 <= j < i ==> !is_blocked(kinds@[j]),
    {
        if kind_is_blocked(&kinds[i]) {
            proof {
                lemma_first_blocked(kinds@);
            }
            return Err(PolicyViolation { kind: kinds[i] });
        }
    }
    Ok(())
}

} // verus!
