//! The execution-flow decision: syntax validation, then the policy filter,
//! then approval. Only an approved batch may be handed to the execution
//! adapter, and it is handed over unmodified.

use vstd::prelude::*;
use crate::kinds::{StmtKind, all_allowed};
use crate::parse::{parse_sqlite_kinds, sqlite_parses, sqlite_kinds, sqlite_parse_err};
use crate::policy::{PolicyViolation, classify, first_blocked};

verus! {

/// A batch that passed both the syntax validator and the policy filter:
/// the SQL text exactly as submitted, and the kinds of its statements.
/// An empty `kinds` means there is nothing to execute.
pub struct ApprovedBatch {
    pub sql: String,
    pub kinds: Vec<StmtKind>,
}

/// The decision taken on one submitted SQL text.
pub enum FlowOutcome {
    /// The text does not parse under the fixed dialect; carries the parser's
    /// diagnostic. Neither the policy filter nor the execution adapter is
    /// reached.
    SyntaxError(String),
    /// The text parses but some statement kind is blocked; the whole batch
    /// is rejected and the execution adapter is not reached.
    Rejected(PolicyViolation),
    /// Every statement kind is allowed: the batch may be executed.
    Approved(ApprovedBatch),
}

/// Decide what to do with one submitted SQL text: reject it on a syntax
/// error, reject the whole batch on any blocked statement kind, and
/// otherwise approve it unmodified for the execution adapter.
pub fn execute_flow(sql: String) -> (r: FlowOutcome)
    ensures
        r is SyntaxError <==> !sqlite_parses(sql@),
        r matches FlowOutcome::SyntaxError(m) ==> m@ == sqlite_parse_err(sql@),
        r is Rejected <==> sqlite_parses(sql@) && !all_allowed(sqlite_kinds(sql@)),
        r matches FlowOutcome::Rejected(v) ==> v.kind == sqlite_kinds(sql@)[first_blocked(sqlite_kinds(sql@))],
        r is Approved <==> sqlite_parses(sql@) && all_allowed(sqlite_kinds(sql@)),
        r matches FlowOutcome::Approved(a) ==> a.sql@ == sql@ && a.kinds@ == sqlite_kinds(sql@),
{
    let parsed = parse_sqlite_kinds(sql.as_str());
    match parsed {
        Err(m) => FlowOutcome::SyntaxError(m),
        Ok(ks) => {
            match classify(&ks) {
                Err(v) => FlowOutcome::Rejected(v),
                Ok(()) => FlowOutcome::Approved(ApprovedBatch { sql, kinds: ks }),
            }
        },
    }
}

} // verus!
