use bb8::QueueStrategy;
use bb8_postgres::tokio_postgres::NoTls;
use pg_connector::pool_manager::after_failed_build;
use pg_connector::pool_manager::after_failed_build_with;
use pg_connector::pool_manager::connection_config;
use pg_connector::pool_manager::connection_params;
use pg_connector::pool_manager::PoolInitAction;
use pg_connector::pool_manager::PoolSettings;
use pg_connector::pool_manager::RETRY_DELAY_MILLIS;
use pg_connector::ConnectorError;
use pg_connector::PoolManager;

#[test]
fn connection_params_with_database() {
    assert_eq!(
        connection_params("primary.db", 5432, "postgres", "secret", Some("mydb")),
        "host=primary.db port=5432 user=postgres password=secret dbname=mydb"
    );
}

#[test]
fn connection_params_without_database() {
    assert_eq!(
        connection_params("localhost", 0, "u", "p", None),
        "host=localhost port=0 user=u password=p"
    );
}

#[test]
fn well_formed_params_parse() {
    assert!(connection_config("localhost", 5432, "u", "p", Some("db")).is_ok());
    assert!(connection_config("localhost", 5432, "u", "p", None).is_ok());
}

#[test]
fn password_with_a_space_does_not_parse() {
    assert!(connection_config("localhost", 5432, "u", "my pass", None).is_err());
}

#[test]
fn manager_keeps_its_timing_settings() {
    let m = PoolManager::new("localhost", 5432, "u", "p", Some("db"), 3, 7, NoTls);
    assert_eq!(m.first_connection_sleep_time, 3);
    assert_eq!(m.max_retries, 7);
    let m2 = PoolManager::try_new("localhost", 5432, "u", "p", None, 0, 5, NoTls)
        .expect("valid parameters");
    assert_eq!(m2.first_connection_sleep_time, 0);
    assert_eq!(m2.max_retries, 5);
}

#[test]
fn manager_refuses_unparsable_parameters() {
    assert!(PoolManager::try_new("localhost", 5432, "u", "my pass", None, 0, 5, NoTls).is_none());
}

#[test]
fn settings_keep_the_arguments() {
    let s = PoolSettings::new(5, 20, 5000, Some(60000), QueueStrategy::Lifo);
    assert_eq!(s.min_idle, 5);
    assert_eq!(s.max_size, 20);
    assert_eq!(s.connection_timeout_millis, 5000);
    assert_eq!(s.max_lifetime_millis, Some(60000));
    assert!(matches!(s.queue_strategy, QueueStrategy::Lifo));
    assert_eq!(s.rejection(), None);
    let unlimited = PoolSettings::new(0, 1, 1, None, QueueStrategy::Fifo);
    assert_eq!(unlimited.rejection(), None);
}

#[test]
fn settings_rejections_follow_the_builder_order() {
    let zero_size = PoolSettings::new(5, 0, 0, Some(0), QueueStrategy::Fifo);
    assert_eq!(zero_size.rejection(), Some("max_size must be greater than zero!"));
    let zero_timeout = PoolSettings::new(50, 10, 0, Some(0), QueueStrategy::Fifo);
    assert_eq!(zero_timeout.rejection(), Some("connection_timeout must be non-zero"));
    let zero_lifetime = PoolSettings::new(50, 10, 100, Some(0), QueueStrategy::Fifo);
    assert_eq!(zero_lifetime.rejection(), Some("max_lifetime must be greater than zero!"));
    let too_idle = PoolSettings::new(11, 10, 100, None, QueueStrategy::Fifo);
    assert_eq!(too_idle.rejection(), Some("min_idle must be no larger than max_size"));
}

fn builds_until_giving_up(max_retries: u32, retry: bool) -> (u32, ConnectorError) {
    let mut attempts: u32 = 0;
    loop {
        match after_failed_build(attempts, max_retries, retry, "refused") {
            PoolInitAction::Retry { attempts: a, delay_millis } => {
                assert_eq!(a, attempts + 1);
                assert_eq!(delay_millis, 250);
                attempts = a;
            }
            PoolInitAction::GiveUp(e) => return (attempts + 1, e),
        }
    }
}

#[test]
fn no_retry_gives_up_after_the_first_failure() {
    let (n, e) = builds_until_giving_up(5, false);
    assert_eq!(n, 1);
    match e {
        ConnectorError::PoolError(m) => assert_eq!(
            m,
            "Max retries exceeded while initializing pool (attempted 1): refused"
        ),
        other => panic!("unexpected {:?}", other),
    }
}

#[test]
fn retry_gives_up_after_max_retries_builds() {
    let (n, e) = builds_until_giving_up(5, true);
    assert_eq!(n, 5);
    match e {
        ConnectorError::PoolError(m) => assert_eq!(
            m,
            "Max retries exceeded while initializing pool (attempted 5): refused"
        ),
        other => panic!("unexpected {:?}", other),
    }
}

#[test]
fn retry_with_zero_or_one_max_retries_builds_once() {
    assert_eq!(builds_until_giving_up(0, true).0, 1);
    assert_eq!(builds_until_giving_up(1, true).0, 1);
    assert_eq!(builds_until_giving_up(2, true).0, 2);
}

#[test]
fn retry_delay_is_a_quarter_second() {
    assert_eq!(RETRY_DELAY_MILLIS, 250);
    assert!(matches!(
        after_failed_build(0, 3, true, "x"),
        PoolInitAction::Retry { attempts: 1, delay_millis: 250 }
    ));
}

#[test]
fn give_up_reports_the_client_error_text() {
    let err = bb8_postgres::tokio_postgres::Error::__private_api_timeout();
    match after_failed_build_with(1, 2, true, &err) {
        PoolInitAction::GiveUp(ConnectorError::PoolError(m)) => assert_eq!(
            m,
            "Max retries exceeded while initializing pool (attempted 2): timeout waiting for server"
        ),
        _ => panic!("expected to give up"),
    }
    assert!(matches!(
        after_failed_build_with(0, 2, true, &err),
        PoolInitAction::Retry { attempts: 1, delay_millis: 250 }
    ));
}

#[test]
fn manager_getters_return_its_settings() {
    let m = PoolManager::new("localhost", 5432, "u", "p", None, 4, 9, NoTls);
    assert_eq!(m.first_connection_sleep_time(), 4);
    assert_eq!(m.max_retries(), 9);
}
