use mysql_transaction::{
    begin_statement, commit_statement, rollback_statement, ConnectionState, MySqlTransactionManager,
    PacketStream, TransactionError, Waiting,
};

fn transport_error() -> sqlx_core::Error {
    sqlx_core::Error::Protocol("connection reset".to_string())
}

fn at_depth(depth: usize) -> ConnectionState {
    let mut conn = ConnectionState::new();
    conn.transaction_depth = depth;
    conn
}

/// Runs a whole `begin` against a server that accepts the statement.
fn begin_ok(conn: &mut ConnectionState, statement: Option<String>) -> String {
    let sql = MySqlTransactionManager::begin(conn, statement).ok().unwrap();
    MySqlTransactionManager::complete_begin(conn, Ok(()), true).ok().unwrap();
    sql
}

fn commit_ok(conn: &mut ConnectionState) -> Option<String> {
    let sql = MySqlTransactionManager::commit(conn);
    if sql.is_some() {
        MySqlTransactionManager::complete_commit(conn, Ok(())).unwrap();
    }
    sql
}

fn rollback_ok(conn: &mut ConnectionState) -> Option<String> {
    let sql = MySqlTransactionManager::rollback(conn);
    if sql.is_some() {
        MySqlTransactionManager::complete_rollback(conn, Ok(())).unwrap();
    }
    sql
}

#[test]
fn begin_statement_forms() {
    assert_eq!(begin_statement(0), "BEGIN");
    assert_eq!(begin_statement(1), "SAVEPOINT _sqlx_savepoint_1");
    assert_eq!(begin_statement(2), "SAVEPOINT _sqlx_savepoint_2");
    assert_eq!(begin_statement(10), "SAVEPOINT _sqlx_savepoint_10");
}

#[test]
fn commit_statement_forms() {
    assert_eq!(commit_statement(1), "COMMIT");
    assert_eq!(commit_statement(3), "RELEASE SAVEPOINT _sqlx_savepoint_2");
}

#[test]
fn rollback_statement_forms() {
    assert_eq!(rollback_statement(1), "ROLLBACK");
    assert_eq!(rollback_statement(3), "ROLLBACK TO SAVEPOINT _sqlx_savepoint_2");
}

#[test]
fn savepoint_names_match_across_operations() {
    let mut conn = at_depth(4);
    let created = begin_ok(&mut conn, None);
    assert_eq!(created, "SAVEPOINT _sqlx_savepoint_4");
    assert_eq!(commit_ok(&mut conn).unwrap(), "RELEASE SAVEPOINT _sqlx_savepoint_4");
    begin_ok(&mut conn, None);
    assert_eq!(rollback_ok(&mut conn).unwrap(), "ROLLBACK TO SAVEPOINT _sqlx_savepoint_4");
}

#[test]
fn custom_begin_at_depth_zero() {
    let mut conn = ConnectionState::new();
    let custom = "START TRANSACTION READ ONLY".to_string();
    let sql = begin_ok(&mut conn, Some(custom.clone()));
    assert_eq!(sql, custom);
    assert_eq!(MySqlTransactionManager::get_transaction_depth(&conn), 1);
}

#[test]
fn custom_begin_when_nested_is_refused() {
    for depth in [1usize, 2, 5] {
        let conn = at_depth(depth);
        let r = MySqlTransactionManager::begin(&conn, Some("BEGIN".to_string()));
        assert!(matches!(r, Err(TransactionError::InvalidSavePointStatement)));
        assert_eq!(conn.transaction_depth, depth);
    }
}

#[test]
fn begin_without_transaction_is_refused() {
    let mut conn = ConnectionState::new();
    let sql = MySqlTransactionManager::begin(&conn, None).ok().unwrap();
    assert_eq!(sql, "BEGIN");
    let r = MySqlTransactionManager::complete_begin(&mut conn, Ok(()), false);
    assert!(matches!(r, Err(TransactionError::BeginFailed)));
    assert_eq!(conn.transaction_depth, 0);
}

#[test]
fn begin_transport_failure_keeps_depth() {
    let mut conn = at_depth(2);
    let r = MySqlTransactionManager::complete_begin(&mut conn, Err(transport_error()), false);
    match r {
        Err(TransactionError::Execute(sqlx_core::Error::Protocol(m))) => {
            assert_eq!(m, "connection reset")
        }
        _ => panic!("expected the transport error"),
    }
    assert_eq!(conn.transaction_depth, 2);
}

#[test]
fn commit_and_rollback_at_depth_zero_do_nothing() {
    let mut conn = ConnectionState::new();
    assert!(commit_ok(&mut conn).is_none());
    assert_eq!(conn.transaction_depth, 0);
    assert!(rollback_ok(&mut conn).is_none());
    assert_eq!(conn.transaction_depth, 0);
}

#[test]
fn begin_at_depth_zero_and_two() {
    assert_eq!(MySqlTransactionManager::begin(&at_depth(0), None).ok().unwrap(), "BEGIN");
    assert_eq!(
        MySqlTransactionManager::begin(&at_depth(2), None).ok().unwrap(),
        "SAVEPOINT _sqlx_savepoint_2"
    );
}

#[test]
fn commit_at_depth_one_and_three() {
    assert_eq!(MySqlTransactionManager::commit(&at_depth(1)).unwrap(), "COMMIT");
    assert_eq!(
        MySqlTransactionManager::commit(&at_depth(3)).unwrap(),
        "RELEASE SAVEPOINT _sqlx_savepoint_2"
    );
}

#[test]
fn rollback_at_depth_one_and_three() {
    assert_eq!(MySqlTransactionManager::rollback(&at_depth(1)).unwrap(), "ROLLBACK");
    assert_eq!(
        MySqlTransactionManager::rollback(&at_depth(3)).unwrap(),
        "ROLLBACK TO SAVEPOINT _sqlx_savepoint_2"
    );
}

#[test]
fn begin_begin_commit_rollback() {
    let mut conn = ConnectionState::new();
    let mut depths = vec![conn.transaction_depth];
    let mut statements = Vec::new();
    statements.push(begin_ok(&mut conn, None));
    depths.push(conn.transaction_depth);
    statements.push(begin_ok(&mut conn, None));
    depths.push(conn.transaction_depth);
    statements.push(commit_ok(&mut conn).unwrap());
    depths.push(conn.transaction_depth);
    statements.push(rollback_ok(&mut conn).unwrap());
    depths.push(conn.transaction_depth);
    assert_eq!(depths, vec![0, 1, 2, 1, 0]);
    assert_eq!(
        statements,
        vec![
            "BEGIN".to_string(),
            "SAVEPOINT _sqlx_savepoint_1".to_string(),
            "RELEASE SAVEPOINT _sqlx_savepoint_1".to_string(),
            "ROLLBACK".to_string(),
        ]
    );
}

#[test]
fn depth_counts_successful_operations() {
    let mut conn = ConnectionState::new();
    begin_ok(&mut conn, None);
    begin_ok(&mut conn, None);
    begin_ok(&mut conn, None);
    rollback_ok(&mut conn);
    begin_ok(&mut conn, None);
    commit_ok(&mut conn);
    commit_ok(&mut conn);
    // four begins, two commits, one rollback
    assert_eq!(conn.transaction_depth, 1);
}

#[test]
fn start_rollback_queues_statement() {
    let mut conn = at_depth(3);
    conn.stream.sequence_id = 7;
    MySqlTransactionManager::start_rollback(&mut conn);
    assert_eq!(conn.transaction_depth, 2);
    assert_eq!(conn.stream.waiting.len(), 1);
    assert_eq!(conn.stream.waiting[0], Waiting::Result);
    let sql = b"ROLLBACK TO SAVEPOINT _sqlx_savepoint_2";
    let len = sql.len() + 1;
    let mut expected = vec![len as u8, 0, 0, 0, 0x03];
    expected.extend_from_slice(sql);
    assert_eq!(conn.stream.wbuf, expected);
    assert_eq!(conn.stream.sequence_id, 1);
}

#[test]
fn start_rollback_at_depth_one() {
    let mut conn = at_depth(1);
    conn.stream.waiting.push_back(Waiting::Row);
    MySqlTransactionManager::start_rollback(&mut conn);
    assert_eq!(conn.transaction_depth, 0);
    assert_eq!(
        conn.stream.waiting.iter().copied().collect::<Vec<_>>(),
        vec![Waiting::Row, Waiting::Result]
    );
    assert_eq!(conn.stream.wbuf, b"\x09\x00\x00\x00\x03ROLLBACK".to_vec());
}

#[test]
fn start_rollback_at_depth_zero_does_nothing() {
    let mut conn = ConnectionState::new();
    conn.stream.sequence_id = 4;
    MySqlTransactionManager::start_rollback(&mut conn);
    assert_eq!(conn.transaction_depth, 0);
    assert!(conn.stream.waiting.is_empty());
    assert!(conn.stream.wbuf.is_empty());
    assert_eq!(conn.stream.sequence_id, 4);
}

#[test]
fn failed_commit_keeps_depth() {
    let mut conn = at_depth(2);
    assert!(MySqlTransactionManager::commit(&conn).is_some());
    let r = MySqlTransactionManager::complete_commit(&mut conn, Err(transport_error()));
    assert!(matches!(r, Err(sqlx_core::Error::Protocol(_))));
    assert_eq!(conn.transaction_depth, 2);
}

#[test]
fn failed_rollback_keeps_depth() {
    let mut conn = at_depth(1);
    assert!(MySqlTransactionManager::rollback(&conn).is_some());
    let r = MySqlTransactionManager::complete_rollback(&mut conn, Err(transport_error()));
    assert!(matches!(r, Err(sqlx_core::Error::Protocol(_))));
    assert_eq!(conn.transaction_depth, 1);
}

#[test]
fn write_query_frames_packet() {
    let mut stream = PacketStream::new();
    stream.sequence_id = 255;
    stream.write_query("SELECT 1");
    assert_eq!(stream.wbuf, b"\x09\x00\x00\xff\x03SELECT 1".to_vec());
    assert_eq!(stream.sequence_id, 0);
    stream.write_query(&"x".repeat(300));
    assert_eq!(&stream.wbuf[13..18], &[0x2d, 0x01, 0x00, 0x00, 0x03]);
    assert_eq!(stream.sequence_id, 1);
}
