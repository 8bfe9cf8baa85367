//! The syntax validator: parses candidate SQL text with a fixed
//! SQLite-compatible dialect and reduces each parsed statement to its
//! top-level kind.

use vstd::prelude::*;
use sqlparser::ast::Statement;
use sqlparser::dialect::SQLiteDialect;
use sqlparser::parser::Parser;
use crate::kinds::StmtKind;

verus! {

/// Whether the text parses under the fixed SQLite-compatible dialect.
pub uninterp spec fn sqlite_parses(sql: Seq<char>) -> bool;

/// The kinds of the parsed statements, in textual order, when the text parses.
pub uninterp spec fn sqlite_kinds(sql: Seq<char>) -> Seq<StmtKind>;

/// The parser's diagnostic message, when the text does not parse.
pub uninterp spec fn sqlite_parse_err(sql: Seq<char>) -> Seq<char>;

/// Relies on sqlparser's `Parser::parse_sql` with the SQLite dialect: it
/// splits the text into `;`-separated statements in textual order (an empty
/// or whitespace-only text gives an empty list), or reports a diagnostic,
/// and its result depends on the text alone. Each parsed statement is
/// reduced to its top-level kind, one match arm per `Statement` variant that
/// the policy names.
#[verifier::external_body]
pub(crate) fn parse_sqlite_kinds(sql: &str) -> (r: Result<Vec<StmtKind>, String>)
    ensures
        r is Ok <==> sqlite_parses(sql@),
        r matches Ok(ks) ==> ks@ == sqlite_kinds(sql@),
        r matches Err(m) ==> m@ == sqlite_parse_err(sql@),
{
    match Parser::parse_sql(&SQLiteDialect {}, sql) {
        Err(e) => Err(e.to_string()),
        Ok(stmts) => Ok(stmts.iter().map(|s| match s {
            Statement::Drop { .. } => StmtKind::Drop,
            Statement::AlterTable(..) => StmtKind::AlterTable,
            Statement::AlterSchema(..) => StmtKind::AlterSchema,
            Statement::AlterRole { .. } => StmtKind::AlterRole,
            Statement::Truncate { .. } => StmtKind::Truncate,
            Statement::CreateRole(..) => StmtKind::CreateRole,
            Statement::CreateDatabase { .. } => StmtKind::CreateDatabase,
            Statement::Query(..) => StmtKind::Query,
            _ => StmtKind::Other,
        }).collect()),
    }
}

} // verus!
