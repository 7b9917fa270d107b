use vstd::prelude::*;

verus! {

/// A failure of the database layer. Native driver errors never reach a caller:
/// each is turned into one of these kinds, keeping only its text.
#[derive(Debug, Clone, PartialEq, Eq)]
pub enum DbErr {
    /// A connection could not be established, or none could be acquired.
    Conn(String),
    /// A statement that changes data failed.
    Exec(String),
    /// A statement that reads data failed, or a transaction could not be
    /// begun, committed or rolled back.
    Query(String),
}

/// A `DbErr` with its message as a sequence of characters.
pub enum DbErrView {
    Conn(Seq<char>),
    Exec(Seq<char>),
    Query(Seq<char>),
}

impl DbErrView {
    /// The message that the error carries.
    pub open spec fn message(self) -> Seq<char> {
        match self {
            DbErrView::Conn(text) => text,
            DbErrView::Exec(text) => text,
            DbErrView::Query(text) => text,
        }
    }
}

impl View for DbErr {
    type V = DbErrView;

    open spec fn view(&self) -> DbErrView {
        match self {
            DbErr::Conn(text) => DbErrView::Conn(text@),
            DbErr::Exec(text) => DbErrView::Exec(text@),
            DbErr::Query(text) => DbErrView::Query(text@),
        }
    }
}

impl DbErr {
    /// The message that the error carries.
    pub fn message(&self) -> (text: &String)
        ensures
            text@ == self@.message(),
    {
        match self {
            DbErr::Conn(text) => text,
            DbErr::Exec(text) => text,
            DbErr::Query(text) => text,
        }
    }
}

/// How a transaction failed: around the unit of work, or in it.
#[derive(Debug, PartialEq)]
pub enum TransactionError<E> {
    /// The connection, the begin or the commit failed.
    Connection(DbErr),
    /// The unit of work itself failed, with the caller's own error.
    Transaction(E),
}

/// A `TransactionError` with the message of its `DbErr` as a sequence of characters.
pub enum TransactionErrorView<E> {
    Connection(DbErrView),
    Transaction(E),
}

impl<E> View for TransactionError<E> {
    type V = TransactionErrorView<E>;

    open spec fn view(&self) -> TransactionErrorView<E> {
        match self {
            TransactionError::Connection(err) => TransactionErrorView::Connection(err@),
            TransactionError::Transaction(err) => TransactionErrorView::Transaction(*err),
        }
    }
}

/// A result with its error taken by its view.
pub open spec fn by_view<T, E: View>(result: Result<T, E>) -> Result<T, E::V> {
    match result {
        Ok(value) => Ok(value),
        Err(err) => Err(err@),
    }
}

/// A result with its value and its error taken by their views.
pub open spec fn by_views<T: View, E: View>(result: Result<T, E>) -> Result<T::V, E::V> {
    match result {
        Ok(value) => Ok(value@),
        Err(err) => Err(err@),
    }
}

} // verus!
