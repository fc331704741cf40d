use pg_connector::ClusterDefine;
use pg_connector::PgConnector;
use pg_connector::Route;

#[test]
fn writes_go_to_the_primary_and_reads_to_the_replica() {
    let c = PgConnector::new("primary", 42u32);
    assert_eq!(*c.write(), "primary");
    assert_eq!(*c.read(), 42);
    match c.route(ClusterDefine::WRITE) {
        Route::Write(p) => assert_eq!(*p, "primary"),
        Route::Read(_) => panic!("a write was routed to the replica"),
    }
    match c.route(ClusterDefine::READ) {
        Route::Read(p) => assert_eq!(*p, 42),
        Route::Write(_) => panic!("a read was routed to the primary"),
    }
}
