//! What holds of the layer as a whole, proved from the contracts of its parts.

use vstd::prelude::*;
use vstd::std_specs::convert::FromSpec;
use sqlx::postgres::{PgQueryResult, PgRow};
use sqlx::sqlite::{SqliteQueryResult, SqliteRow};
use crate::database::backend::DbBackend;
use crate::database::db_connection::{
    execute_outcome, query_all_outcome, query_one_outcome, ConnectionTrait,
};
use crate::database::transaction::{DatabaseTransaction, Settlement, TransactionState};
use crate::driver::sqlx_common::{Attempt, DriverError};
use crate::driver::sqlx_postgres::SqlxPostgresConnector;
use crate::driver::sqlx_sqlite::SqlxSqliteConnector;
use crate::error::{DbErrView, TransactionErrorView};
use crate::executor::{ExecResult, QueryResult};

verus! {

/// No connection string belongs to two backends: a string that one connector
/// accepts, the other refuses.
pub proof fn connectors_accept_disjoint_strings(string: Seq<char>)
    ensures
        !(SqlxPostgresConnector::scheme().is_prefix_of(string)
            && SqlxSqliteConnector::scheme().is_prefix_of(string)),
{
    reveal_strlit("postgres://");
    reveal_strlit("sqlite:");
    if SqlxPostgresConnector::scheme().is_prefix_of(string)
        && SqlxSqliteConnector::scheme().is_prefix_of(string) {
        assert(string.subrange(0, 11)[0] == string[0]);
        assert(string.subrange(0, 7)[0] == string[0]);
        assert("postgres://"@[0] == 'p');
        assert("sqlite:"@[0] == 's');
    }
}

/// Connecting through a connector gives a handle of that connector's backend,
/// whenever the native pool was opened.
pub proof fn connecting_holds_the_matching_variant<P, S>(postgres: P, sqlite: S)
    ensures
        SqlxPostgresConnector::connect_outcome::<P, S>(Ok(postgres)) matches Ok(connection)
            && connection.backend() == DbBackend::Postgres,
        SqlxSqliteConnector::connect_outcome::<P, S>(Ok(sqlite)) matches Ok(connection)
            && connection.backend() == DbBackend::Sqlite,
{
}

/// A neutral result carries the tag of the backend whose native value it was
/// made from.
pub proof fn results_carry_their_backend(
    pg_row: PgRow,
    pg_done: PgQueryResult,
    sqlite_row: SqliteRow,
    sqlite_done: SqliteQueryResult,
)
    ensures
        <QueryResult as FromSpec<PgRow>>::from_spec(pg_row).backend() == DbBackend::Postgres,
        <ExecResult as FromSpec<PgQueryResult>>::from_spec(pg_done).backend()
            == DbBackend::Postgres,
        <QueryResult as FromSpec<SqliteRow>>::from_spec(sqlite_row).backend() == DbBackend::Sqlite,
        <ExecResult as FromSpec<SqliteQueryResult>>::from_spec(sqlite_done).backend()
            == DbBackend::Sqlite,
{
}

/// An operation hands on what the driver returned as it is, so a result keeps
/// the tag it was made with.
pub proof fn operations_keep_the_driver_result(
    done: ExecResult,
    row: QueryResult,
    rows: Vec<QueryResult>,
)
    ensures
        execute_outcome(Attempt::Done(done)) == Ok::<ExecResult, DbErrView>(done),
        query_one_outcome(Attempt::Done(row)) == Ok::<Option<QueryResult>, DbErrView>(Some(row)),
        query_all_outcome(Attempt::Done(rows)) == Ok::<Vec<QueryResult>, DbErrView>(rows),
{
}

/// `query_one` gives `None`, and no error, exactly when the driver ran the
/// query and reported that no row matched; and a row exactly when the driver
/// returned that row.
pub proof fn query_one_narrows_only_the_empty_answer(attempt: Attempt<QueryResult>)
    ensures
        query_one_outcome(attempt) == Ok::<Option<QueryResult>, DbErrView>(None) <==> (
        attempt matches Attempt::Failed(err) && err.no_rows),
        forall|row: QueryResult|
            query_one_outcome(attempt) == Ok::<Option<QueryResult>, DbErrView>(Some(row))
                <==> attempt == Attempt::Done(row),
        query_one_outcome(attempt) matches Err(err) ==> err is Conn || err is Query,
{
}

/// A pool that is exhausted or closed is told from a statement that is
/// defective: an operation reports `Conn` exactly when the pool gave no
/// connection, and never for what a driver answered.
pub proof fn exhaustion_is_told_from_defect(
    execute: Attempt<ExecResult>,
    query_one: Attempt<QueryResult>,
    query_all: Attempt<Vec<QueryResult>>,
)
    ensures
        (execute_outcome(execute) matches Err(err) && err is Conn) <==> execute is NoConnection,
        (query_one_outcome(query_one) matches Err(err) && err is Conn)
            <==> query_one is NoConnection,
        (query_all_outcome(query_all) matches Err(err) && err is Conn)
            <==> query_all is NoConnection,
        execute_outcome(execute) matches Err(err) ==> err is Conn || err is Exec,
        query_all_outcome(query_all) matches Err(err) ==> err is Conn || err is Query,
{
}

/// The commit is asked for exactly when the unit of work succeeded, and the
/// transaction ends as committed exactly when that commit went through; the
/// caller then gets the value of the unit of work.
pub proof fn commit_follows_success<T, E>(work: Result<T, E>, closed: Result<(), DriverError>)
    ensures
        DatabaseTransaction::settlement_of(work) == Settlement::Commit <==> work is Ok,
        DatabaseTransaction::state_after(work, closed) == TransactionState::Committed <==> (work
            is Ok && closed is Ok),
        DatabaseTransaction::run_outcome(work, closed) is Ok
            <==> DatabaseTransaction::state_after(work, closed) == TransactionState::Committed,
        DatabaseTransaction::run_outcome(work, closed) matches Ok(value) ==> work == Ok::<T, E>(
            value,
        ),
{
}

/// When the unit of work fails, the rollback is asked for, the transaction
/// ends as rolled back, and the caller gets the error of the unit of work
/// unchanged, whatever the rollback returned.
pub proof fn failure_rolls_back_and_is_returned_unchanged<T, E>(
    error: E,
    closed: Result<(), DriverError>,
)
    ensures
        DatabaseTransaction::settlement_of(Err::<T, E>(error)) == Settlement::Rollback,
        DatabaseTransaction::state_after(Err::<T, E>(error), closed)
            == TransactionState::RolledBack,
        DatabaseTransaction::run_outcome(Err::<T, E>(error), closed) == Err::<
            T,
            TransactionErrorView<E>,
        >(TransactionErrorView::Transaction(error)),
{
}

/// A closed transaction stays closed: whatever `run` was given, the
/// transaction accepts no statement afterwards.
pub proof fn closing_is_final<T, E>(work: Result<T, E>, closed: Result<(), DriverError>)
    ensures
        DatabaseTransaction::state_after(work, closed) != TransactionState::Open,
{
}

} // verus!
