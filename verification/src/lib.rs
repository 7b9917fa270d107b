//! The database-access runtime beneath an object-relational layer.
//!
//! A caller issues a statement through a connection, the statement runs on a
//! pooled native driver, and the answer comes back in a form that does not
//! depend on the backend; a transaction runs a unit of work and commits or
//! rolls back by its outcome.
//!
//! The library makes no native call that waits. The caller acquires the
//! connection, runs the statement on the driver, and hands over what came of
//! it; every decision of the runtime is then a function from that to what the
//! operation returns, and each is stated by its contract:
//!
//! * `driver`: the connectors of the two backends, their pooled connections,
//!   and what is read of a driver's error;
//! * `database`: the connection interface, the handle over the pools, and the
//!   transaction from its begin to its end;
//! * `executor`: the results in their neutral form;
//! * `error`: the errors that reach a caller;
//! * `derives`: the names of the traits that check the fields of a model;
//! * `laws`: what holds of these together.

pub mod database;
pub mod derives;
pub mod driver;
pub mod error;
pub mod executor;
pub mod laws;

pub use crate::database::backend::DbBackend;
pub use crate::database::db_connection::{ConnectionTrait, DatabaseConnection};
pub use crate::database::statement::Statement;
pub use crate::database::transaction::{DatabaseTransaction, Settlement, TransactionState};
pub use crate::driver::sqlx_common::{Attempt, DriverError};
pub use crate::driver::sqlx_postgres::{SqlxPostgresConnector, SqlxPostgresPoolConnection};
pub use crate::driver::sqlx_sqlite::{SqlxSqliteConnector, SqlxSqlitePoolConnection};
pub use crate::error::{DbErr, TransactionError};
pub use crate::executor::{ExecResult, QueryResult};
