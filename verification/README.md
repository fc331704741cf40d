# pg_connector

A PostgreSQL connector for read/write split clusters, built on bb8 and
tokio-postgres, whose decisions are verified with Verus.

- `src/` is the verified library:
  - `operation.rs`: `ClusterDefine`, the primary (`WRITE`) or the replica (`READ`).
  - `connector.rs`: `PgConnector`, holding the write and the read pool, and
    `route`, which sends statements for the primary to the write pool and
    those for the replica to the read pool.
  - `pool_manager.rs`: `PoolManager`, the connection parameters of a server
    and their parse; `PoolSettings`, the pool settings and when bb8 refuses
    them; `after_failed_build`, the retry policy of pool initialization, with
    the law on how many builds are attempted before giving up.
  - `errors.rs`: `ConnectorError` and `PostgresDetailedError`, the
    classification of client and pool errors, and their rendering as text.
  - `text.rs`: decimal rendering of integers.
- `app/` holds the asynchronous side: the awaited pool builds and pauses,
  checking out pooled connections, and the `SqlExpose` statements.
- `tests/` exercises the library on concrete values.
