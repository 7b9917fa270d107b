use vstd::prelude::*;
use crate::database::backend::DbBackend;

verus! {

/// What a statement that changes data did, as the backend that ran it reported it.
#[derive(Debug, Clone, Copy, PartialEq, Eq)]
pub struct ExecResult {
    pub result: ExecResultHolder,
}

/// The report of one backend. PostgreSQL counts the rows; SQLite also tells
/// the row id of the last insert.
#[derive(Debug, Clone, Copy, PartialEq, Eq)]
pub enum ExecResultHolder {
    SqlxPostgres { rows_affected: u64 },
    SqlxSqlite { rows_affected: u64, last_insert_rowid: i64 },
}

impl ExecResult {
    /// The backend that produced this result.
    pub open spec fn spec_backend(&self) -> DbBackend {
        match self.result {
            ExecResultHolder::SqlxPostgres { .. } => DbBackend::Postgres,
            ExecResultHolder::SqlxSqlite { .. } => DbBackend::Sqlite,
        }
    }

    /// The backend that produced this result.
    #[verifier::when_used_as_spec(spec_backend)]
    pub fn backend(&self) -> (backend: DbBackend)
        ensures
            backend == self.spec_backend(),
    {
        match self.result {
            ExecResultHolder::SqlxPostgres { .. } => DbBackend::Postgres,
            ExecResultHolder::SqlxSqlite { .. } => DbBackend::Sqlite,
        }
    }

    /// The number of rows that the statement changed.
    pub open spec fn spec_rows_affected(&self) -> u64 {
        match self.result {
            ExecResultHolder::SqlxPostgres { rows_affected } => rows_affected,
            ExecResultHolder::SqlxSqlite { rows_affected, .. } => rows_affected,
        }
    }

    /// The id of the last inserted row, where the backend reports one.
    pub open spec fn spec_last_insert_id(&self) -> Option<i64> {
        match self.result {
            ExecResultHolder::SqlxPostgres { .. } => None,
            ExecResultHolder::SqlxSqlite { last_insert_rowid, .. } => Some(last_insert_rowid),
        }
    }

    /// The number of rows that the statement changed.
    #[verifier::when_used_as_spec(spec_rows_affected)]
    pub fn rows_affected(&self) -> (count: u64)
        ensures
            count == self.spec_rows_affected(),
    {
        match self.result {
            ExecResultHolder::SqlxPostgres { rows_affected } => rows_affected,
            ExecResultHolder::SqlxSqlite { rows_affected, .. } => rows_affected,
        }
    }

    /// The id of the last inserted row: `None` for PostgreSQL, which reports none.
    #[verifier::when_used_as_spec(spec_last_insert_id)]
    pub fn last_insert_id(&self) -> (id: Option<i64>)
        ensures
            id == self.spec_last_insert_id(),
    {
        match self.result {
            ExecResultHolder::SqlxPostgres { .. } => None,
            ExecResultHolder::SqlxSqlite { last_insert_rowid, .. } => Some(last_insert_rowid),
        }
    }
}

/// One row of a query's answer, in the form of the backend that produced it.
pub struct QueryResult {
    pub row: QueryResultRow,
}

/// A native row, tagged with its backend.
pub enum QueryResultRow {
    SqlxPostgres(sqlx::postgres::PgRow),
    SqlxSqlite(sqlx::sqlite::SqliteRow),
}

impl QueryResult {
    /// The backend that produced this row.
    pub open spec fn spec_backend(&self) -> DbBackend {
        match self.row {
            QueryResultRow::SqlxPostgres(_) => DbBackend::Postgres,
            QueryResultRow::SqlxSqlite(_) => DbBackend::Sqlite,
        }
    }

    /// The backend that produced this row.
    #[verifier::when_used_as_spec(spec_backend)]
    pub fn backend(&self) -> (backend: DbBackend)
        ensures
            backend == self.spec_backend(),
    {
        match self.row {
            QueryResultRow::SqlxPostgres(_) => DbBackend::Postgres,
            QueryResultRow::SqlxSqlite(_) => DbBackend::Sqlite,
        }
    }
}

} // verus!
