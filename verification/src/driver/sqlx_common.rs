use vstd::prelude::*;
use vstd::string::to_string_from_display_ensures;
use crate::error::{DbErr, DbErrView};

verus! {

/// `sqlx::Error`, the error of every call into a driver. Nothing is known of
/// what one holds but what the items below say.
#[verifier::external_type_specification]
#[verifier::external_body]
pub struct ExSqlxError(sqlx::Error);

/// Whether a driver error is `sqlx::Error::RowNotFound`, by which a driver
/// says that a query for one row matched none.
pub uninterp spec fn reports_no_rows(err: sqlx::Error) -> bool;

/// Tests an `sqlx::Error` for its variant `RowNotFound`. The contract gives
/// that test the name `reports_no_rows` and claims nothing else.
#[verifier::external_body]
fn is_row_not_found(err: &sqlx::Error) -> (found: bool)
    ensures
        found == reports_no_rows(*err),
{
    matches!(err, sqlx::Error::RowNotFound)
}

/// What this layer reads in a driver's error: whether it reports that a query
/// for one row matched none, and its text.
#[derive(Debug, Clone, PartialEq, Eq)]
pub struct DriverError {
    pub no_rows: bool,
    pub message: String,
}

impl DriverError {
    /// Reads a driver's error. The message is the text that the error displays.
    pub fn read(err: sqlx::Error) -> (read: DriverError)
        ensures
            read.no_rows == reports_no_rows(err),
            to_string_from_display_ensures::<sqlx::Error>(&err, read.message),
    {
        let no_rows = is_row_not_found(&err);
        let message = err.to_string();
        DriverError { no_rows, message }
    }
}

/// What came of an attempt to run something on a connection of a pool.
#[derive(Debug, PartialEq)]
pub enum Attempt<T> {
    /// The pool handed out no connection.
    NoConnection,
    /// The driver ran the request and failed.
    Failed(DriverError),
    /// The driver ran the request.
    Done(T),
}

impl<T> Attempt<T> {
    /// The attempt that a driver's answer on an acquired connection amounts to.
    pub fn ran(answer: Result<T, sqlx::Error>) -> (attempt: Attempt<T>)
        ensures
            answer matches Ok(value) ==> attempt == Attempt::Done(value),
            answer matches Err(err) ==> {
                &&& attempt matches Attempt::Failed(read)
                &&& read.no_rows == reports_no_rows(err)
                &&& to_string_from_display_ensures::<sqlx::Error>(&err, read.message)
            },
    {
        match answer {
            Ok(value) => Attempt::Done(value),
            Err(err) => Attempt::Failed(DriverError::read(err)),
        }
    }
}

/// The text of the error for a pool that handed out no connection.
pub open spec fn no_connection_text() -> Seq<char> {
    "Failed to acquire connection from pool."@
}

/// The text of the error for a pool that handed out no connection.
pub fn no_connection_message() -> (text: String)
    ensures
        text@ == no_connection_text(),
{
    "Failed to acquire connection from pool.".to_owned()
}

/// The error for a statement that changes data and failed in the driver.
pub fn exec_err(err: DriverError) -> (reported: DbErr)
    ensures
        reported == DbErr::Exec(err.message),
{
    DbErr::Exec(err.message)
}

/// The error for a statement that reads data and failed in the driver, and
/// for a begin or a commit that did.
pub fn query_err(err: DriverError) -> (reported: DbErr)
    ensures
        reported == DbErr::Query(err.message),
{
    DbErr::Query(err.message)
}

/// The error for a statement that changes data, from the driver's own error:
/// `Exec`, with the text that the driver's error displays.
pub fn sqlx_error_to_exec_err(err: sqlx::Error) -> (reported: DbErr)
    ensures
        reported matches DbErr::Exec(text) && to_string_from_display_ensures::<sqlx::Error>(
            &err,
            text,
        ),
{
    exec_err(DriverError::read(err))
}

/// The error for a statement that reads data, from the driver's own error:
/// `Query`, with the text that the driver's error displays.
pub fn sqlx_error_to_query_err(err: sqlx::Error) -> (reported: DbErr)
    ensures
        reported matches DbErr::Query(text) && to_string_from_display_ensures::<sqlx::Error>(
            &err,
            text,
        ),
{
    query_err(DriverError::read(err))
}

/// The error of a statement for which the pool handed out no connection.
pub fn no_connection_err() -> (err: DbErr)
    ensures
        err@ == DbErrView::Conn(no_connection_text()),
{
    DbErr::Conn(no_connection_message())
}

} // verus!
