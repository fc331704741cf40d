//! A PostgreSQL connector for read/write split clusters: connection
//! parameters and pool settings of its managers, the retry policy of pool
//! initialization, routing of statements, and its errors.
pub mod connector;
pub mod errors;
pub mod operation;
pub mod pool_manager;
pub mod text;

pub use connector::PgConnector;
pub use connector::Route;
pub use errors::ConnectorError;
pub use errors::PostgresDetailedError;
pub use operation::ClusterDefine;
pub use pool_manager::PoolManager;

pub use bb8_postgres::tokio_postgres::Row;
pub use bb8_postgres::tokio_postgres::Statement;
pub use bb8_postgres::tokio_postgres::types::ToSql;
pub use bb8_postgres::tokio_postgres::types::Type;
