use bb8::RunError;
use bb8_postgres::tokio_postgres;
use pg_connector::ConnectorError;
use pg_connector::PostgresDetailedError;

fn detailed(code: &str, message: &str) -> PostgresDetailedError {
    PostgresDetailedError {
        code: code.to_string(),
        message: message.to_string(),
        detail: None,
        hint: None,
        schema: None,
        table: None,
        column: None,
        datatype: None,
        constraint: None,
        where_context: None,
        file: None,
        line: None,
        routine: None,
    }
}

#[test]
fn detailed_error_renders_code_and_message_only() {
    let e = detailed("23505", "duplicate key value");
    assert_eq!(e.to_string(), "Postgres Error [23505]: duplicate key value");
}

#[test]
fn detailed_error_renders_every_present_field_in_order() {
    let mut e = detailed("42P01", "relation does not exist");
    e.detail = Some("d".to_string());
    e.hint = Some("h".to_string());
    e.schema = Some("public".to_string());
    e.table = Some("users".to_string());
    e.column = Some("id".to_string());
    e.datatype = Some("int4".to_string());
    e.constraint = Some("users_pkey".to_string());
    e.where_context = Some("SQL function".to_string());
    e.file = Some("parse_relation.c".to_string());
    e.line = Some(1384);
    e.routine = Some("parserOpenTable".to_string());
    assert_eq!(
        e.to_string(),
        "Postgres Error [42P01]: relation does not exist\nDetail: d\nHint: h\nSchema: public\nTable: users\nColumn: id\nConstraint: users_pkey\nWhere: SQL function\nFile: parse_relation.c:1384"
    );
}

#[test]
fn detailed_error_file_without_line_renders_zero() {
    let mut e = detailed("XX000", "internal");
    e.file = Some("x.c".to_string());
    assert_eq!(e.to_string(), "Postgres Error [XX000]: internal\nFile: x.c:0");
}

#[test]
fn detailed_error_line_without_file_is_not_rendered() {
    let mut e = detailed("XX000", "internal");
    e.line = Some(7);
    e.hint = Some("retry".to_string());
    assert_eq!(e.to_string(), "Postgres Error [XX000]: internal\nHint: retry");
}

#[test]
fn connector_error_renders_each_variant() {
    assert_eq!(ConnectorError::TimeoutError.to_string(), "Operation timed out");
    assert_eq!(
        ConnectorError::PoolError("boom".to_string()).to_string(),
        "BB8 pool error: boom"
    );
    assert_eq!(
        ConnectorError::PostgresError(detailed("1", "m")).to_string(),
        "Postgres Error [1]: m"
    );
    let conn = ConnectorError::ConnectionError(tokio_postgres::Error::__private_api_timeout());
    assert_eq!(conn.to_string(), "Postgres connection error: timeout waiting for server");
}

#[test]
fn classify_with_details_is_postgres_error() {
    let err = tokio_postgres::Error::__private_api_timeout();
    let r = ConnectorError::classify(err, Some(detailed("23505", "dup")));
    match r {
        ConnectorError::PostgresError(d) => {
            assert_eq!(d.code, "23505");
            assert_eq!(d.message, "dup");
        }
        other => panic!("unexpected {:?}", other),
    }
}

#[test]
fn classify_without_details_is_connection_error() {
    let err = tokio_postgres::Error::__private_api_timeout();
    let r = ConnectorError::classify(err, None);
    assert!(matches!(r, ConnectorError::ConnectionError(_)));
}

#[test]
fn client_error_without_server_record_is_connection_error() {
    let r = ConnectorError::from_postgres_error(tokio_postgres::Error::__private_api_timeout());
    assert!(matches!(r, ConnectorError::ConnectionError(_)));
    let r2: ConnectorError = tokio_postgres::Error::__private_api_timeout().into();
    assert!(matches!(r2, ConnectorError::ConnectionError(_)));
}

#[test]
fn pool_timeout_is_timeout_error() {
    assert!(matches!(
        ConnectorError::from_pool_failure(None),
        ConnectorError::TimeoutError
    ));
    let r = ConnectorError::from_run_error(RunError::TimedOut);
    assert!(matches!(r, ConnectorError::TimeoutError));
    let r2: ConnectorError = RunError::<tokio_postgres::Error>::TimedOut.into();
    assert!(matches!(r2, ConnectorError::TimeoutError));
}

#[test]
fn pool_user_error_is_converted_as_client_error() {
    let r = ConnectorError::from_run_error(RunError::User(
        tokio_postgres::Error::__private_api_timeout(),
    ));
    assert!(matches!(r, ConnectorError::ConnectionError(_)));
    let r2 = ConnectorError::from_pool_failure(Some(tokio_postgres::Error::__private_api_timeout()));
    assert!(matches!(r2, ConnectorError::ConnectionError(_)));
}

#[test]
fn source_is_the_client_error_only_for_connection_errors() {
    let conn = ConnectorError::ConnectionError(tokio_postgres::Error::__private_api_timeout());
    let src = conn.source().expect("a connection error has a source");
    assert_eq!(src.to_string(), "timeout waiting for server");
    assert!(ConnectorError::TimeoutError.source().is_none());
    assert!(ConnectorError::PoolError("x".to_string()).source().is_none());
    assert!(ConnectorError::PostgresError(detailed("1", "m")).source().is_none());
}

#[test]
fn retries_exhausted_reports_attempts_and_cause() {
    let e = ConnectorError::retries_exhausted(3, "db down");
    match &e {
        ConnectorError::PoolError(m) => assert_eq!(
            m,
            "Max retries exceeded while initializing pool (attempted 3): db down"
        ),
        other => panic!("unexpected {:?}", other),
    }
    assert_eq!(
        e.to_string(),
        "BB8 pool error: Max retries exceeded while initializing pool (attempted 3): db down"
    );
}
