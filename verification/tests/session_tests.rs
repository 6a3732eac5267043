use rbatis::conn::Connection;
use rbatis::errors::SessionError;
use rbatis::local_session::LocalSession;
use rbatis::propagation::Propagation;
use rbatis::recording::RecStmt;
use rbatis::recording::RecordingConnection;
use rbatis::value::DbValue;

fn session() -> LocalSession<RecordingConnection> {
    let conn = RecordingConnection { stmts: Vec::new() };
    LocalSession::new("s1", "mem://db", Some(conn)).unwrap()
}

fn stmt_sql(s: &RecStmt) -> &str {
    match s {
        RecStmt::Command { sql, .. } => sql,
        RecStmt::Query { sql, .. } => sql,
        _ => panic!("not a command or query"),
    }
}

#[test]
fn required_at_depth_zero_pushes_one_scope_and_begins() {
    let mut s = session();
    s.begin(Propagation::REQUIRED).unwrap();
    assert_eq!(s.tx_stack.len(), 1);
    assert_eq!(s.conn.stmts.len(), 1);
    assert!(matches!(s.conn.stmts[0], RecStmt::Begin));
}

#[test]
fn not_required_at_depth_zero_pushes_one_scope() {
    let mut s = session();
    s.begin(Propagation::NOT_REQUIRED).unwrap();
    assert_eq!(s.tx_stack.len(), 1);
    assert!(matches!(s.conn.stmts[0], RecStmt::Begin));
}

#[test]
fn nested_at_depth_zero_degrades_to_required() {
    let mut s = session();
    s.begin(Propagation::NESTED).unwrap();
    assert_eq!(s.tx_stack.len(), 1);
    assert_eq!(s.last_propagation(), Some(Propagation::REQUIRED));
    assert!(matches!(s.conn.stmts[0], RecStmt::Begin));
}

#[test]
fn supports_never_touch_the_stack() {
    let mut s = session();
    s.begin(Propagation::SUPPORTS).unwrap();
    assert_eq!(s.tx_stack.len(), 0);
    assert_eq!(s.conn.stmts.len(), 0);
    s.begin(Propagation::NEVER).unwrap();
    assert_eq!(s.tx_stack.len(), 0);
    assert_eq!(s.conn.stmts.len(), 0);
}

#[test]
fn mandatory_at_depth_zero_fails_and_leaves_stack_empty() {
    let mut s = session();
    let r = s.begin(Propagation::MANDATORY);
    assert_eq!(r, Err(SessionError::NoActiveTransaction));
    assert_eq!(s.tx_stack.len(), 0);
    assert_eq!(s.conn.stmts.len(), 0);
}

#[test]
fn requires_new_installs_child_with_its_own_transaction() {
    let mut s = session();
    s.begin(Propagation::REQUIRES_NEW).unwrap();
    assert_eq!(s.tx_stack.len(), 0);
    assert_eq!(s.conn.stmts.len(), 0);
    let c = s.new_local_session.as_ref().unwrap();
    assert_eq!(c.tx_stack.len(), 1);
    assert_eq!(c.conn.stmts.len(), 1);
    assert!(matches!(c.conn.stmts[0], RecStmt::Begin));
}

#[test]
fn not_supported_installs_autocommit_child() {
    let mut s = session();
    s.begin(Propagation::NOT_SUPPORTED).unwrap();
    assert_eq!(s.tx_stack.len(), 0);
    let c = s.new_local_session.as_ref().unwrap();
    assert_eq!(c.tx_stack.len(), 0);
    assert_eq!(c.conn.stmts.len(), 0);
}

#[test]
fn depth_positive_mandatory_supports_required_nested_succeed() {
    let mut s = session();
    s.begin(Propagation::REQUIRED).unwrap();
    assert!(s.begin(Propagation::MANDATORY).is_ok());
    assert_eq!(s.tx_stack.len(), 1);
    assert!(s.begin(Propagation::SUPPORTS).is_ok());
    assert_eq!(s.tx_stack.len(), 1);
    assert!(s.begin(Propagation::REQUIRED).is_ok());
    assert_eq!(s.tx_stack.len(), 2);
    assert!(s.begin(Propagation::NESTED).is_ok());
    assert_eq!(s.tx_stack.len(), 3);
    assert_eq!(s.last_propagation(), Some(Propagation::NESTED));
}

#[test]
fn depth_positive_never_and_not_required_fail() {
    let mut s = session();
    s.begin(Propagation::REQUIRED).unwrap();
    assert_eq!(
        s.begin(Propagation::NEVER),
        Err(SessionError::UnexpectedTransaction)
    );
    assert_eq!(
        s.begin(Propagation::NOT_REQUIRED),
        Err(SessionError::NestedTransaction)
    );
    assert_eq!(s.tx_stack.len(), 1);
}

#[test]
fn unsupported_propagation_is_rejected() {
    let mut s = session();
    assert_eq!(
        s.begin(Propagation::NONE),
        Err(SessionError::UnsupportedPropagation)
    );
    assert_eq!(s.tx_stack.len(), 0);
}

#[test]
fn commit_finalizes_only_when_depth_reaches_zero() {
    let mut s = session();
    s.begin(Propagation::REQUIRED).unwrap();
    s.begin(Propagation::REQUIRED).unwrap();
    let before = s.conn.stmts.len();
    s.commit().unwrap();
    assert_eq!(s.tx_stack.len(), 1);
    assert_eq!(s.conn.stmts.len(), before); // inner commit is a logical marker
    s.commit().unwrap();
    assert_eq!(s.tx_stack.len(), 0);
    assert!(matches!(s.conn.stmts[s.conn.stmts.len() - 1], RecStmt::Commit));
}

#[test]
fn rollback_finalizes_only_when_depth_reaches_zero() {
    let mut s = session();
    s.begin(Propagation::REQUIRED).unwrap();
    s.begin(Propagation::REQUIRED).unwrap();
    let before = s.conn.stmts.len();
    s.rollback().unwrap();
    assert_eq!(s.tx_stack.len(), 1);
    assert_eq!(s.conn.stmts.len(), before);
    s.rollback().unwrap();
    assert_eq!(s.tx_stack.len(), 0);
    assert!(matches!(s.conn.stmts[s.conn.stmts.len() - 1], RecStmt::Rollback));
}

#[test]
fn commit_and_rollback_at_depth_zero_are_no_ops() {
    let mut s = session();
    assert_eq!(s.commit(), Ok(0));
    assert_eq!(s.rollback(), Ok(0));
    assert_eq!(s.conn.stmts.len(), 0);
}

#[test]
fn nested_scope_rolls_back_to_its_own_savepoint() {
    let mut s = session();
    s.begin(Propagation::REQUIRED).unwrap();
    s.exec("UPDATE t SET a = 1", Vec::new()).unwrap();
    s.begin(Propagation::NESTED).unwrap();
    s.exec("UPDATE t SET a = 2", Vec::new()).unwrap();
    s.rollback().unwrap();

    assert_eq!(s.tx_stack.len(), 1); // the outer transaction stays open
    let st = &s.conn.stmts;
    assert_eq!(st.len(), 5);
    assert!(matches!(st[0], RecStmt::Begin));
    assert_eq!(stmt_sql(&st[1]), "UPDATE t SET a = 1");
    assert_eq!(stmt_sql(&st[2]), "SAVEPOINT p1");
    assert_eq!(stmt_sql(&st[3]), "UPDATE t SET a = 2");
    assert_eq!(stmt_sql(&st[4]), "ROLLBACK TO SAVEPOINT p1");
    let rollbacks = st
        .iter()
        .filter(|x| matches!(x, RecStmt::Command { sql, .. } if sql.starts_with("ROLLBACK TO SAVEPOINT")))
        .count();
    assert_eq!(rollbacks, 1);

    s.commit().unwrap();
    assert_eq!(s.tx_stack.len(), 0);
    assert!(matches!(s.conn.stmts[5], RecStmt::Commit));
    assert_eq!(s.conn.stmts.len(), 6);
}

#[test]
fn two_nested_scopes_unwind_in_lifo_order() {
    let mut s = session();
    s.begin(Propagation::REQUIRED).unwrap();
    s.begin(Propagation::NESTED).unwrap();
    s.begin(Propagation::NESTED).unwrap();
    assert_eq!(stmt_sql(&s.conn.stmts[1]), "SAVEPOINT p1");
    assert_eq!(stmt_sql(&s.conn.stmts[2]), "SAVEPOINT p2");
    s.rollback().unwrap();
    assert_eq!(stmt_sql(&s.conn.stmts[3]), "ROLLBACK TO SAVEPOINT p2");
    s.rollback().unwrap();
    assert_eq!(stmt_sql(&s.conn.stmts[4]), "ROLLBACK TO SAVEPOINT p1");
    s.rollback().unwrap();
    assert!(matches!(s.conn.stmts[5], RecStmt::Rollback));
    assert_eq!(s.tx_stack.len(), 0);
}

#[test]
fn exec_routes_to_connection_in_autocommit() {
    let mut s = session();
    s.exec("DELETE FROM t", vec![DbValue::Int(1)]).unwrap();
    assert_eq!(s.conn.stmts.len(), 1);
    match &s.conn.stmts[0] {
        RecStmt::Command { sql, params } => {
            assert_eq!(sql, "DELETE FROM t");
            assert_eq!(params.len(), 1);
            assert!(matches!(params[0], DbValue::Int(1)));
        }
        _ => panic!("expected a command"),
    }
}

#[test]
fn query_returns_rows_from_the_driver() {
    let mut s = session();
    let rows = s.query("SELECT * FROM t", Vec::new()).unwrap();
    assert_eq!(rows.len(), 0);
    assert!(matches!(s.conn.stmts[0], RecStmt::Query { .. }));
}

#[test]
fn operations_route_to_the_delegated_child() {
    let mut s = session();
    s.begin(Propagation::REQUIRES_NEW).unwrap();
    s.exec("UPDATE t SET a = 1", Vec::new()).unwrap();
    assert_eq!(s.conn.stmts.len(), 0);
    let c = s.new_local_session.as_ref().unwrap();
    assert_eq!(stmt_sql(&c.conn.stmts[1]), "UPDATE t SET a = 1");

    s.commit().unwrap();
    assert!(s.new_local_session.is_none()); // child finalized and removed
    assert_eq!(s.conn.stmts.len(), 0); // parent had no transaction of its own
}

#[test]
fn close_is_idempotent_and_blocks_later_operations() {
    let mut s = session();
    s.close();
    assert!(s.is_closed);
    s.close();
    assert!(s.is_closed);
    assert_eq!(s.exec("UPDATE t SET a = 1", Vec::new()), Err(SessionError::SessionClosed));
    assert!(matches!(s.query("SELECT 1", Vec::new()), Err(SessionError::SessionClosed)));
    assert_eq!(s.begin(Propagation::REQUIRED), Err(SessionError::SessionClosed));
    assert_eq!(s.commit(), Err(SessionError::SessionClosed));
    assert_eq!(s.rollback(), Err(SessionError::SessionClosed));
    assert_eq!(s.conn.stmts.len(), 0);
    assert_eq!(s.tx_stack.len(), 0);
}

#[test]
fn close_does_not_finalize_an_open_transaction() {
    let mut s = session();
    s.begin(Propagation::REQUIRED).unwrap();
    s.close();
    assert_eq!(s.tx_stack.len(), 1);
    assert_eq!(s.conn.stmts.len(), 1); // only the BEGIN
}

#[test]
fn driver_failure_propagates() {
    let mut s = session();
    let r = s.exec("", Vec::new());
    assert!(matches!(r, Err(SessionError::Driver(_))));
    assert_eq!(s.conn.stmts.len(), 1); // the statement was still dispatched
}

#[test]
fn connection_acquisition_failure_propagates() {
    let r = LocalSession::<RecordingConnection>::new("x", "", None);
    assert!(matches!(r, Err(SessionError::ConnectionAcquisition(_))));
}

#[test]
fn empty_id_gets_a_fresh_identifier() {
    let s = LocalSession::<RecordingConnection>::new("", "mem://db", None).unwrap();
    assert_eq!(s.id().chars().count(), 36);
}

#[test]
fn given_id_is_kept() {
    let s = session();
    assert_eq!(s.id(), "s1");
}

#[test]
fn last_propagation_reads_the_top_of_the_stack() {
    let mut s = session();
    assert_eq!(s.last_propagation(), None);
    s.begin(Propagation::REQUIRED).unwrap();
    assert_eq!(s.last_propagation(), Some(Propagation::REQUIRED));
}

#[test]
fn connect_gives_an_empty_recording_connection() {
    let c = RecordingConnection::connect("mem://db").unwrap();
    assert_eq!(c.stmts.len(), 0);
}

#[test]
fn session_error_messages_describe_the_kind() {
    assert_eq!(
        SessionError::SessionClosed.message(),
        "session can not be used after close"
    );
    assert!(SessionError::NoActiveTransaction.message().contains("MANDATORY"));
    assert!(SessionError::UnexpectedTransaction.message().contains("NEVER"));
    assert!(SessionError::NestedTransaction.message().contains("NOT_REQUIRED"));
    assert_eq!(
        SessionError::Driver("boom".to_string()).message(),
        "boom"
    );
}

#[test]
fn committing_a_nested_scope_re_establishes_a_savepoint() {
    let mut s = session();
    s.begin(Propagation::REQUIRED).unwrap();
    s.begin(Propagation::NESTED).unwrap();
    s.commit().unwrap();
    assert_eq!(s.tx_stack.len(), 1); // the outer transaction stays open
    assert_eq!(stmt_sql(&s.conn.stmts[1]), "SAVEPOINT p1");
    assert_eq!(stmt_sql(&s.conn.stmts[2]), "SAVEPOINT p2");
    s.commit().unwrap();
    assert!(matches!(s.conn.stmts[3], RecStmt::Commit));
}

#[test]
fn statements_inside_a_transaction_reach_the_same_connection() {
    let mut s = session();
    s.begin(Propagation::REQUIRED).unwrap();
    s.exec("INSERT INTO t VALUES (?)", vec![DbValue::Str("x".to_string())]).unwrap();
    assert_eq!(s.conn.stmts.len(), 2);
    assert_eq!(stmt_sql(&s.conn.stmts[1]), "INSERT INTO t VALUES (?)");
}
