//! The closed enumeration of statement kinds that the policy speaks of, and
//! the blocked set.

use vstd::prelude::*;

verus! {

/// The top-level syntactic category of one parsed SQL statement.
///
/// The seven kinds capable of destructive or structural damage are named
/// individually so the policy can be stated as set membership; `Query` names
/// the common read path; every other allowed category is `Other`.
#[derive(Clone, Copy, PartialEq, Eq, Structural, Debug)]
pub enum StmtKind {
    Drop,
    AlterTable,
    AlterSchema,
    AlterRole,
    Truncate,
    CreateRole,
    CreateDatabase,
    Query,
    Other,
}

/// The blocked set: schema-, role- and data-destructive statement kinds.
/// Membership depends on the kind alone, never on table or column names.
pub open spec fn is_blocked(k: StmtKind) -> bool {
    match k {
        StmtKind::Drop => true,
        StmtKind::AlterTable => true,
        StmtKind::AlterSchema => true,
        StmtKind::AlterRole => true,
        StmtKind::Truncate => true,
        StmtKind::CreateRole => true,
        StmtKind::CreateDatabase => true,
        StmtKind::Query => false,
        StmtKind::Other => false,
    }
}

/// A batch is clean when no statement kind in it is blocked.
pub open spec fn all_allowed(ks: Seq<StmtKind>) -> bool {
    forall|i: int| 0 <= i < ks.len() ==> !is_blocked(ks[i])
}

/// Membership test against the blocked set.
pub fn kind_is_blocked(k: &StmtKind) -> (r: bool)
    ensures
        r == is_blocked(*k),
{
    match k {
        StmtKind::Drop => true,
        StmtKind::AlterTable => true,
        StmtKind::AlterSchema => true,
        StmtKind::AlterRole => true,
        StmtKind::Truncate => true,
        StmtKind::CreateRole => true,
        StmtKind::CreateDatabase => true,
        StmtKind::Query => false,
        StmtKind::Other => false,
    }
}

} // verus!
