use odbc_api::{
    Connection, ConnectionHandle, ConnectionState, Error, NativeError, SqlReturn,
    StatementHandle, TeardownOutcome,
};
use widestring::U16String;

fn connection() -> Connection {
    Connection::new(ConnectionHandle { raw: 10 })
}

fn stmt(raw: u64) -> Result<StatementHandle, NativeError> {
    Ok(StatementHandle { raw })
}

#[test]
fn select_one_yields_cursor() {
    let mut conn = connection();
    let cursor = conn
        .exec_direct("SELECT 1", stmt(1), SqlReturn::Success)
        .unwrap()
        .expect("a cursor");
    let statement = cursor.statement();
    assert_eq!(statement.handle(), StatementHandle { raw: 1 });
    assert_eq!(statement.connection(), ConnectionHandle { raw: 10 });
    let expected: Vec<u16> = "SELECT 1".encode_utf16().collect();
    assert_eq!(statement.executed_text(), Some(&expected));
    assert!(conn.take_released().is_empty());
    assert!(conn.has_live_statement());
}

#[test]
fn no_data_yields_no_cursor_and_no_error() {
    let mut conn = connection();
    let r = conn.exec_direct("UPDATE t SET a = 1", stmt(2), SqlReturn::NoData);
    assert!(matches!(r, Ok(None)));
    assert_eq!(conn.take_released(), vec![StatementHandle { raw: 2 }]);
}

#[test]
fn invalid_sql_yields_execution_failure() {
    let mut conn = connection();
    let diag = NativeError { native_code: 102 };
    let r = conn.exec_direct("SELEC FROM", stmt(3), SqlReturn::Error(diag));
    assert!(matches!(r, Err(Error::ExecutionFailed(NativeError { native_code: 102 }))));
    assert_eq!(conn.take_released(), vec![StatementHandle { raw: 3 }]);
}

#[test]
fn allocation_failure_comes_before_execution() {
    let mut conn = connection();
    let diag = NativeError { native_code: -1 };
    let r = conn.exec_direct("SELECT 1", Err(diag), SqlReturn::Success);
    assert!(matches!(r, Err(Error::AllocationFailed(NativeError { native_code: -1 }))));
    assert!(conn.take_released().is_empty());
    assert_eq!(conn.state(), ConnectionState::Connected);
}

#[test]
fn allocate_statement_binds_to_connection() {
    let mut conn = connection();
    let e = conn.allocate_statement(Err(NativeError { native_code: 7 }));
    assert!(matches!(e, Err(Error::AllocationFailed(NativeError { native_code: 7 }))));
    assert!(!conn.has_live_statement());
    let s = conn.allocate_statement(stmt(4)).unwrap();
    assert_eq!(s.handle(), StatementHandle { raw: 4 });
    assert_eq!(s.connection(), conn.handle());
    assert_eq!(s.executed_text(), None);
    assert!(conn.has_live_statement());
    conn.release_statement(s);
    assert!(!conn.has_live_statement());
    assert_eq!(conn.take_released(), vec![StatementHandle { raw: 4 }]);
}

#[test]
fn statement_exec_direct_classifies_outcomes() {
    let mut conn = connection();
    let mut s = conn.allocate_statement(stmt(5)).unwrap();
    let q = [83u16, 49u16];
    assert_eq!(s.exec_direct(&conn, &q, SqlReturn::Success), Ok(true));
    assert_eq!(s.exec_direct(&conn, &q, SqlReturn::NoData), Ok(false));
    assert_eq!(
        s.exec_direct(&conn, &q, SqlReturn::Error(NativeError { native_code: 9 })),
        Err(Error::ExecutionFailed(NativeError { native_code: 9 }))
    );
    assert_eq!(s.executed_text(), Some(&q.to_vec()));
}

#[test]
fn narrow_text_behaves_as_its_wide_encoding() {
    let text = "SELECT 'é𝄞'";
    let wide = U16String::from_str(text);
    let outcomes = [
        (stmt(6), SqlReturn::Success),
        (stmt(6), SqlReturn::NoData),
        (stmt(6), SqlReturn::Error(NativeError { native_code: 1 })),
        (Err(NativeError { native_code: 2 }), SqlReturn::Success),
    ];
    for (allocation, execution) in outcomes {
        let mut narrow_conn = connection();
        let mut wide_conn = connection();
        let a = narrow_conn.exec_direct(text, allocation, execution);
        let b = wide_conn.exec_direct_utf16(wide.as_slice(), allocation, execution);
        match (a, b) {
            (Ok(Some(x)), Ok(Some(y))) => {
                assert_eq!(x.statement().executed_text(), y.statement().executed_text())
            }
            (Ok(None), Ok(None)) => {}
            (Err(x), Err(y)) => assert_eq!(x, y),
            _ => panic!("narrow and wide paths disagree"),
        }
        assert_eq!(narrow_conn.take_released(), wide_conn.take_released());
    }
}

#[test]
fn narrow_text_is_encoded_as_utf16() {
    let mut conn = connection();
    let cursor = conn.exec_direct("aé𝄞", stmt(11), SqlReturn::Success).unwrap().unwrap();
    let units: Vec<u16> = vec![0x61, 0xE9, 0xD834, 0xDD1E];
    assert_eq!(cursor.statement().executed_text(), Some(&units));
}

#[test]
fn closed_cursor_releases_its_statement() {
    let mut conn = connection();
    let cursor = conn.exec_direct("SELECT 1", stmt(12), SqlReturn::Success).unwrap().unwrap();
    assert!(conn.has_live_statement());
    conn.release_statement(cursor.into_statement());
    assert!(!conn.has_live_statement());
    assert_eq!(conn.take_released(), vec![StatementHandle { raw: 12 }]);
    assert!(conn.take_released().is_empty());
    let again = conn.exec_direct("SELECT 2", stmt(14), SqlReturn::NoData);
    assert!(matches!(again, Ok(None)));
    assert_eq!(conn.take_released(), vec![StatementHandle { raw: 14 }]);
}

#[test]
fn normal_teardown_after_successful_disconnect() {
    let mut conn = connection();
    let cursor = conn.exec_direct("SELECT 1", stmt(13), SqlReturn::Success).unwrap().unwrap();
    conn.release_statement(cursor.into_statement());
    assert_eq!(conn.take_released(), vec![StatementHandle { raw: 13 }]);
    assert_eq!(conn.begin_teardown(), ConnectionHandle { raw: 10 });
    assert_eq!(conn.state(), ConnectionState::Disconnecting);
    assert_eq!(conn.finish_teardown(Ok(()), false), TeardownOutcome::Disconnected);
    assert_eq!(conn.state(), ConnectionState::Disconnected);
}

#[test]
fn disconnect_error_while_unwinding_is_suppressed() {
    let mut conn = connection();
    conn.begin_teardown();
    let e = NativeError { native_code: 42 };
    assert_eq!(conn.finish_teardown(Err(e), true), TeardownOutcome::Suppressed(e));
}

#[test]
fn disconnect_error_in_normal_flow_is_fatal() {
    let mut conn = connection();
    conn.begin_teardown();
    let e = NativeError { native_code: 43 };
    assert_eq!(conn.finish_teardown(Err(e), false), TeardownOutcome::Fatal(e));
}

#[test]
fn successful_disconnect_while_unwinding_is_clean() {
    let mut conn = connection();
    conn.begin_teardown();
    assert_eq!(conn.finish_teardown(Ok(()), true), TeardownOutcome::Disconnected);
}
