use sql_gateway::flow::{execute_flow, FlowOutcome};
use sql_gateway::kinds::{kind_is_blocked, StmtKind};
use sql_gateway::policy::{classify, PolicyViolation};

#[test]
fn ping_answers_pong() {
    assert_eq!(sql_gateway::ping(), "pong");
}

#[test]
fn drop_statement_is_rejected_by_policy() {
    match execute_flow("DROP TABLE users;".to_string()) {
        FlowOutcome::Rejected(v) => {
            assert_eq!(v.kind, StmtKind::Drop);
            assert_eq!(
                v.message(),
                "Your SQL contains operations that are not allowed for safety reasons (e.g., DROP, ALTER, TRUNCATE, etc.)."
            );
        }
        _ => panic!("a DROP statement must be rejected by the policy filter"),
    }
}

#[test]
fn truncated_select_is_a_syntax_error() {
    match execute_flow("SELECT * FROM users WHERE id = ".to_string()) {
        FlowOutcome::SyntaxError(m) => assert!(!m.is_empty()),
        _ => panic!("a truncated statement must fail syntax validation"),
    }
}

#[test]
fn plain_select_is_approved_unmodified() {
    match execute_flow("SELECT name FROM users LIMIT 1;".to_string()) {
        FlowOutcome::Approved(a) => {
            assert_eq!(a.sql, "SELECT name FROM users LIMIT 1;");
            assert_eq!(a.kinds, vec![StmtKind::Query]);
        }
        _ => panic!("a plain SELECT must be approved"),
    }
}

#[test]
fn blocked_kind_in_the_middle_rejects_the_whole_batch() {
    match execute_flow("SELECT 1; DROP TABLE t; SELECT 2;".to_string()) {
        FlowOutcome::Rejected(v) => assert_eq!(v.kind, StmtKind::Drop),
        _ => panic!("a batch with a blocked statement anywhere must be rejected"),
    }
}

#[test]
fn alter_table_is_rejected() {
    match execute_flow("ALTER TABLE users RENAME TO people;".to_string()) {
        FlowOutcome::Rejected(v) => assert_eq!(v.kind, StmtKind::AlterTable),
        _ => panic!("an ALTER TABLE statement must be rejected"),
    }
}

#[test]
fn all_allowed_batch_is_approved_unmodified() {
    let sql = "INSERT INTO t (a) VALUES (1); SELECT a FROM t; UPDATE t SET a = 2;";
    match execute_flow(sql.to_string()) {
        FlowOutcome::Approved(a) => {
            assert_eq!(a.sql, sql);
            assert_eq!(a.kinds.len(), 3);
            assert!(a.kinds.iter().all(|k| !kind_is_blocked(k)));
        }
        _ => panic!("a batch of allowed statements must be approved"),
    }
}

#[test]
fn empty_text_is_approved_with_nothing_to_execute() {
    match execute_flow(String::new()) {
        FlowOutcome::Approved(a) => {
            assert_eq!(a.sql, "");
            assert!(a.kinds.is_empty());
        }
        _ => panic!("empty text parses to an empty batch"),
    }
    match execute_flow("   \n\t ".to_string()) {
        FlowOutcome::Approved(a) => assert!(a.kinds.is_empty()),
        _ => panic!("whitespace-only text parses to an empty batch"),
    }
}

#[test]
fn statements_are_classified_in_textual_order() {
    // The first blocked kind in textual order is the one reported, so the
    // rejection names TRUNCATE although a DROP follows it.
    match execute_flow("SELECT 1; TRUNCATE TABLE t; DROP TABLE t;".to_string()) {
        FlowOutcome::Rejected(v) => assert_eq!(v.kind, StmtKind::Truncate),
        _ => panic!("the batch holds blocked statements and must be rejected"),
    }
}

#[test]
fn malformed_text_reports_the_parser_diagnostic() {
    match execute_flow("SELEKT broken FROM".to_string()) {
        FlowOutcome::SyntaxError(m) => assert!(!m.is_empty()),
        _ => panic!("malformed text must fail syntax validation"),
    }
}

#[test]
fn classify_accepts_a_clean_batch_and_the_empty_batch() {
    assert!(classify(&vec![StmtKind::Query, StmtKind::Other]).is_ok());
    assert!(classify(&Vec::new()).is_ok());
}

#[test]
fn classify_reports_the_first_blocked_kind() {
    let batch = vec![
        StmtKind::Query,
        StmtKind::Truncate,
        StmtKind::Drop,
    ];
    assert_eq!(
        classify(&batch),
        Err(PolicyViolation { kind: StmtKind::Truncate })
    );
}

#[test]
fn every_destructive_kind_is_blocked_and_the_rest_are_not() {
    let blocked = [
        StmtKind::Drop,
        StmtKind::AlterTable,
        StmtKind::AlterSchema,
        StmtKind::AlterRole,
        StmtKind::Truncate,
        StmtKind::CreateRole,
        StmtKind::CreateDatabase,
    ];
    for k in blocked {
        assert!(kind_is_blocked(&k));
    }
    assert!(!kind_is_blocked(&StmtKind::Query));
    assert!(!kind_is_blocked(&StmtKind::Other));
}

#[test]
fn create_table_is_allowed() {
    match execute_flow("CREATE TABLE t (a INTEGER);".to_string()) {
        FlowOutcome::Approved(a) => assert_eq!(a.kinds, vec![StmtKind::Other]),
        _ => panic!("CREATE TABLE is an allowed kind"),
    }
}
