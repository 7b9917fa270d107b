use vstd::prelude::*;
use crate::database::backend::DbBackend;
use crate::database::transaction::{DatabaseTransaction, TransactionView};
use crate::driver::sqlx_common::{no_connection_text, Attempt};
use crate::driver::sqlx_postgres::SqlxPostgresPoolConnection;
use crate::driver::sqlx_sqlite::SqlxSqlitePoolConnection;
use crate::error::{
    by_view, by_views, DbErr, DbErrView, TransactionError, TransactionErrorView,
};
use crate::executor::{ExecResult, QueryResult};

verus! {

/// What `execute` returns for an attempt: the driver's result as it is, the
/// driver's failure as `Exec`, and `Conn` where the pool gave no connection.
pub open spec fn execute_outcome(attempt: Attempt<ExecResult>) -> Result<ExecResult, DbErrView> {
    match attempt {
        Attempt::NoConnection => Err(DbErrView::Conn(no_connection_text())),
        Attempt::Failed(err) => Err(DbErrView::Exec(err.message@)),
        Attempt::Done(done) => Ok(done),
    }
}

/// What `query_one` returns for an attempt: the row, nothing where the driver
/// reports that no row matched, any other failure of the driver as `Query`,
/// and `Conn` where the pool gave no connection.
pub open spec fn query_one_outcome(attempt: Attempt<QueryResult>) -> Result<
    Option<QueryResult>,
    DbErrView,
> {
    match attempt {
        Attempt::NoConnection => Err(DbErrView::Conn(no_connection_text())),
        Attempt::Failed(err) => if err.no_rows {
            Ok(None)
        } else {
            Err(DbErrView::Query(err.message@))
        },
        Attempt::Done(row) => Ok(Some(row)),
    }
}

/// What `query_all` returns for an attempt: the rows in the driver's order,
/// the driver's failure as `Query`, and `Conn` where the pool gave no connection.
pub open spec fn query_all_outcome(attempt: Attempt<Vec<QueryResult>>) -> Result<
    Vec<QueryResult>,
    DbErrView,
> {
    match attempt {
        Attempt::NoConnection => Err(DbErrView::Conn(no_connection_text())),
        Attempt::Failed(err) => Err(DbErrView::Query(err.message@)),
        Attempt::Done(rows) => Ok(rows),
    }
}

/// What `transaction` returns for the attempt to acquire a connection and
/// begin on it: an open transaction on `backend`, or the failure of either
/// step as `Connection(Query(..))`.
pub open spec fn transaction_outcome<E>(backend: DbBackend, attempt: Attempt<()>) -> Result<
    TransactionView,
    TransactionErrorView<E>,
> {
    match attempt {
        Attempt::NoConnection => Err(
            TransactionErrorView::Connection(DbErrView::Query(no_connection_text())),
        ),
        Attempt::Failed(err) => Err(
            TransactionErrorView::Connection(DbErrView::Query(err.message@)),
        ),
        Attempt::Done(_) => Ok(DatabaseTransaction::opened(backend)),
    }
}

/// What callers issue statements through: a pooled connection or an open
/// transaction. The native driver call is the caller's; each method takes what
/// came of it and gives what the operation returns, in the same way whatever
/// stands behind the connection.
pub trait ConnectionTrait {
    /// The backend behind this connection.
    spec fn backend(&self) -> DbBackend;

    /// Whether statements can be issued through this connection.
    spec fn accepts_statements(&self) -> bool;

    /// The backend behind this connection.
    fn get_database_backend(&self) -> (backend: DbBackend)
        ensures
            backend == self.backend(),
    ;

    /// What `execute` returns, given what came of running a statement that
    /// changes data.
    fn execute(&self, attempt: Attempt<ExecResult>) -> (result: Result<ExecResult, DbErr>)
        requires
            self.accepts_statements(),
        ensures
            by_view(result) == execute_outcome(attempt),
    ;

    /// What `query_one` returns, given what came of fetching one row. That
    /// no row matched is no error.
    fn query_one(&self, attempt: Attempt<QueryResult>) -> (result: Result<
        Option<QueryResult>,
        DbErr,
    >)
        requires
            self.accepts_statements(),
        ensures
            by_view(result) == query_one_outcome(attempt),
    ;

    /// What `query_all` returns, given what came of fetching all rows.
    fn query_all(&self, attempt: Attempt<Vec<QueryResult>>) -> (result: Result<
        Vec<QueryResult>,
        DbErr,
    >)
        requires
            self.accepts_statements(),
        ensures
            by_view(result) == query_all_outcome(attempt),
    ;

    /// Opens a transaction, given what came of beginning one: on a connection
    /// acquired for it, or inside the transaction that is already open. The
    /// caller then runs the unit of work, closes the native transaction as
    /// `DatabaseTransaction::settlement` decides, and returns what
    /// `DatabaseTransaction::run` gives.
    fn transaction<E>(&self, attempt: Attempt<()>) -> (result: Result<
        DatabaseTransaction,
        TransactionError<E>,
    >)
        requires
            self.accepts_statements(),
        ensures
            by_views(result) == transaction_outcome::<E>(self.backend(), attempt),
    ;
}

/// The handle that an application holds: the pool of one backend, of the
/// caller's type `P` or `S`. Every operation goes to the pool that the handle
/// holds, and to no other.
#[derive(Debug, Clone)]
pub enum DatabaseConnection<P, S> {
    SqlxPostgresPoolConnection(SqlxPostgresPoolConnection<P>),
    SqlxSqlitePoolConnection(SqlxSqlitePoolConnection<S>),
}

impl<P, S> ConnectionTrait for DatabaseConnection<P, S> {
    open spec fn backend(&self) -> DbBackend {
        match self {
            DatabaseConnection::SqlxPostgresPoolConnection(_) => DbBackend::Postgres,
            DatabaseConnection::SqlxSqlitePoolConnection(_) => DbBackend::Sqlite,
        }
    }

    open spec fn accepts_statements(&self) -> bool {
        true
    }

    fn get_database_backend(&self) -> (backend: DbBackend) {
        match self {
            DatabaseConnection::SqlxPostgresPoolConnection(_) => DbBackend::Postgres,
            DatabaseConnection::SqlxSqlitePoolConnection(_) => DbBackend::Sqlite,
        }
    }

    fn execute(&self, attempt: Attempt<ExecResult>) -> (result: Result<ExecResult, DbErr>) {
        match self {
            DatabaseConnection::SqlxPostgresPoolConnection(conn) => conn.execute(attempt),
            DatabaseConnection::SqlxSqlitePoolConnection(conn) => conn.execute(attempt),
        }
    }

    fn query_one(&self, attempt: Attempt<QueryResult>) -> (result: Result<
        Option<QueryResult>,
        DbErr,
    >) {
        match self {
            DatabaseConnection::SqlxPostgresPoolConnection(conn) => conn.query_one(attempt),
            DatabaseConnection::SqlxSqlitePoolConnection(conn) => conn.query_one(attempt),
        }
    }

    fn query_all(&self, attempt: Attempt<Vec<QueryResult>>) -> (result: Result<
        Vec<QueryResult>,
        DbErr,
    >) {
        match self {
            DatabaseConnection::SqlxPostgresPoolConnection(conn) => conn.query_all(attempt),
            DatabaseConnection::SqlxSqlitePoolConnection(conn) => conn.query_all(attempt),
        }
    }

    fn transaction<E>(&self, attempt: Attempt<()>) -> (result: Result<
        DatabaseTransaction,
        TransactionError<E>,
    >) {
        match self {
            DatabaseConnection::SqlxPostgresPoolConnection(conn) => conn.transaction(attempt),
            DatabaseConnection::SqlxSqlitePoolConnection(conn) => conn.transaction(attempt),
        }
    }
}

} // verus!
