use vstd::prelude::*;
use vstd::std_specs::convert::FromSpecImpl;
use sqlx::postgres::{PgQueryResult, PgRow};
use crate::database::backend::DbBackend;
use crate::database::db_connection::{
    execute_outcome, query_all_outcome, query_one_outcome, transaction_outcome,
    DatabaseConnection,
};
use crate::database::transaction::DatabaseTransaction;
use crate::driver::prefix::starts_with;
use crate::driver::sqlx_common::{
    exec_err, no_connection_err, no_connection_message, query_err, Attempt,
};
use crate::error::{by_view, by_views, DbErr, DbErrView, TransactionError};
use crate::executor::{ExecResult, ExecResultHolder, QueryResult, QueryResultRow};

verus! {

/// `sqlx::postgres::PgRow`, one row as the PostgreSQL driver returns it. Nothing is
/// known of what one holds.
#[verifier::external_type_specification]
#[verifier::external_body]
pub struct ExPgRow(PgRow);

/// `sqlx::postgres::PgQueryResult`, what the PostgreSQL driver returns for a
/// statement that it executed. Nothing is known of what one holds but what the
/// items below say.
#[verifier::external_type_specification]
#[verifier::external_body]
pub struct ExPgQueryResult(PgQueryResult);

/// The number of rows that a PostgreSQL result reports as changed: what
/// `PgQueryResult::rows_affected` returns for it.
pub uninterp spec fn pg_rows_affected(result: PgQueryResult) -> u64;

/// `PgQueryResult::rows_affected` reads the count of changed rows that the
/// result holds. The contract gives that count the name `pg_rows_affected`
/// and claims nothing else.
pub assume_specification[ PgQueryResult::rows_affected ](result: &PgQueryResult) -> (count: u64)
    ensures
        count == pg_rows_affected(*result),
;

/// Opens connections to PostgreSQL databases.
#[derive(Debug)]
pub struct SqlxPostgresConnector;

impl SqlxPostgresConnector {
    /// The scheme that marks a connection string as one of this backend.
    pub open spec fn scheme() -> Seq<char> {
        "postgres://"@
    }

    /// What `connect` returns, given what opening the native pool gave: the
    /// pool in the variant of this backend, or `Conn` whatever the failure was.
    pub open spec fn connect_outcome<P, S>(opened: Result<P, sqlx::Error>) -> Result<
        DatabaseConnection<P, S>,
        DbErrView,
    > {
        match opened {
            Ok(pool) => Ok(
                DatabaseConnection::SqlxPostgresPoolConnection(SqlxPostgresPoolConnection { pool }),
            ),
            Err(_) => Err(DbErrView::Conn("Failed to connect."@)),
        }
    }

    /// Tells whether a connection string belongs to this backend: whether it
    /// begins with the scheme.
    pub fn accepts(string: &str) -> (accepted: bool)
        ensures
            accepted == Self::scheme().is_prefix_of(string@),
    {
        starts_with(string, "postgres://")
    }

    /// Wraps the pool that was opened for a connection string, or reports
    /// that none was.
    pub fn connect<P, S>(opened: Result<P, sqlx::Error>) -> (result: Result<
        DatabaseConnection<P, S>,
        DbErr,
    >)
        ensures
            by_view(result) == Self::connect_outcome::<P, S>(opened),
    {
        match opened {
            Ok(pool) => Ok(Self::from_sqlx_postgres_pool(pool)),
            Err(_) => Err(DbErr::Conn("Failed to connect.".to_owned())),
        }
    }

    /// Wraps a pool that the caller has opened.
    pub fn from_sqlx_postgres_pool<P, S>(pool: P) -> (connection: DatabaseConnection<P, S>)
        ensures
            connection == DatabaseConnection::<P, S>::SqlxPostgresPoolConnection(
                SqlxPostgresPoolConnection { pool },
            ),
    {
        DatabaseConnection::SqlxPostgresPoolConnection(SqlxPostgresPoolConnection { pool })
    }
}

/// A pool of native PostgreSQL connections. The pool is the caller's: this layer
/// keeps it and never looks inside, so it may be of any type.
#[derive(Debug, Clone)]
pub struct SqlxPostgresPoolConnection<P> {
    pub pool: P,
}

impl<P> SqlxPostgresPoolConnection<P> {
    /// What `execute` returns, given what came of running the statement on a
    /// connection of this pool.
    pub fn execute(&self, attempt: Attempt<ExecResult>) -> (result: Result<ExecResult, DbErr>)
        ensures
            by_view(result) == execute_outcome(attempt),
    {
        match attempt {
            Attempt::Done(res) => Ok(res),
            Attempt::Failed(err) => Err(exec_err(err)),
            Attempt::NoConnection => Err(no_connection_err()),
        }
    }

    /// What `query_one` returns, given what came of fetching one row on a
    /// connection of this pool.
    pub fn query_one(&self, attempt: Attempt<QueryResult>) -> (result: Result<
        Option<QueryResult>,
        DbErr,
    >)
        ensures
            by_view(result) == query_one_outcome(attempt),
    {
        match attempt {
            Attempt::Done(row) => Ok(Some(row)),
            Attempt::Failed(err) => {
                if err.no_rows {
                    Ok(None)
                } else {
                    Err(query_err(err))
                }
            },
            Attempt::NoConnection => Err(no_connection_err()),
        }
    }

    /// What `query_all` returns, given what came of fetching all rows on a
    /// connection of this pool.
    pub fn query_all(&self, attempt: Attempt<Vec<QueryResult>>) -> (result: Result<
        Vec<QueryResult>,
        DbErr,
    >)
        ensures
            by_view(result) == query_all_outcome(attempt),
    {
        match attempt {
            Attempt::Done(rows) => Ok(rows),
            Attempt::Failed(err) => Err(query_err(err)),
            Attempt::NoConnection => Err(no_connection_err()),
        }
    }

    /// Opens a transaction, given what came of acquiring a connection of this
    /// pool and beginning on it. Where either step failed, no transaction is
    /// opened.
    pub fn transaction<E>(&self, attempt: Attempt<()>) -> (result: Result<
        DatabaseTransaction,
        TransactionError<E>,
    >)
        ensures
            by_views(result) == transaction_outcome::<E>(DbBackend::Postgres, attempt),
    {
        match attempt {
            Attempt::Done(_) => Ok(DatabaseTransaction::begin(DbBackend::Postgres)),
            Attempt::Failed(err) => Err(TransactionError::Connection(query_err(err))),
            Attempt::NoConnection => Err(
                TransactionError::Connection(DbErr::Query(no_connection_message())),
            ),
        }
    }
}

impl From<PgRow> for QueryResult {
    fn from(row: PgRow) -> (result: QueryResult) {
        QueryResult { row: QueryResultRow::SqlxPostgres(row) }
    }
}

impl FromSpecImpl<PgRow> for QueryResult {
    open spec fn obeys_from_spec() -> bool {
        true
    }

    open spec fn from_spec(row: PgRow) -> QueryResult {
        QueryResult { row: QueryResultRow::SqlxPostgres(row) }
    }
}

impl From<PgQueryResult> for ExecResult {
    fn from(result: PgQueryResult) -> (neutral: ExecResult) {
        ExecResult {
            result: ExecResultHolder::SqlxPostgres { rows_affected: result.rows_affected() },
        }
    }
}

impl FromSpecImpl<PgQueryResult> for ExecResult {
    open spec fn obeys_from_spec() -> bool {
        true
    }

    open spec fn from_spec(result: PgQueryResult) -> ExecResult {
        ExecResult {
            result: ExecResultHolder::SqlxPostgres { rows_affected: pg_rows_affected(result) },
        }
    }
}

/// Native rows in their neutral form: each tagged with this backend, in the
/// same order.
pub open spec fn neutral_rows(rows: Seq<PgRow>) -> Seq<QueryResult> {
    rows.map_values(|row: PgRow| QueryResult { row: QueryResultRow::SqlxPostgres(row) })
}

/// The rows of a native answer in their neutral form, in the driver's order.
pub fn into_query_results(rows: Vec<PgRow>) -> (results: Vec<QueryResult>)
    ensures
        results@ == neutral_rows(rows@),
{
    let mut results: Vec<QueryResult> = Vec::new();
    for row in iter: rows
        invariant
            results@ == neutral_rows(iter.seq().take(iter.index())),
    {
        results.push(QueryResult::from(row));
    }
    results
}

} // verus!
