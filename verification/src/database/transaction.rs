use vstd::prelude::*;
use crate::database::backend::DbBackend;
use crate::database::db_connection::ConnectionTrait;
use crate::driver::sqlx_common::{
    exec_err, no_connection_err, no_connection_message, query_err, Attempt, DriverError,
};
use crate::error::{by_view, DbErr, DbErrView, TransactionError, TransactionErrorView};
use crate::executor::{ExecResult, QueryResult};

verus! {

/// Where a transaction stands. `Open` accepts statements; the other two are final.
#[derive(Clone, Copy, Debug, PartialEq, Eq, Structural)]
pub enum TransactionState {
    /// The native transaction has begun and takes statements.
    Open,
    /// The unit of work succeeded and the commit went through.
    Committed,
    /// The unit of work failed, or the commit did.
    RolledBack,
}

/// The native call that closes a transaction.
#[derive(Clone, Copy, Debug, PartialEq, Eq, Structural)]
pub enum Settlement {
    Commit,
    Rollback,
}

/// A transaction on one connection of one backend, from its begin to its
/// commit or rollback. The caller holds the native transaction and runs the
/// unit of work; this value decides how the transaction ends and what the
/// caller of `transaction` gets back.
#[derive(Debug)]
pub struct DatabaseTransaction {
    backend: DbBackend,
    state: TransactionState,
}

/// What a `DatabaseTransaction` is: its backend and where it stands.
pub struct TransactionView {
    pub backend: DbBackend,
    pub state: TransactionState,
}

impl View for DatabaseTransaction {
    type V = TransactionView;

    closed spec fn view(&self) -> TransactionView {
        TransactionView { backend: self.backend, state: self.state }
    }
}

impl DatabaseTransaction {
    /// Where the transaction stands.
    pub open spec fn spec_state(&self) -> TransactionState {
        self@.state
    }

    /// The transaction that has just begun on a connection of `backend`.
    pub open spec fn opened(backend: DbBackend) -> TransactionView {
        TransactionView { backend, state: TransactionState::Open }
    }

    /// The native call that closes a transaction whose unit of work ended
    /// with `work`: commit after success, rollback after failure.
    pub open spec fn settlement_of<T, E>(work: Result<T, E>) -> Settlement {
        match work {
            Ok(_) => Settlement::Commit,
            Err(_) => Settlement::Rollback,
        }
    }

    /// What `transaction` returns to its caller, given how the unit of work
    /// ended and what the closing native call returned: the value of the unit
    /// of work when the commit went through, the commit's failure as
    /// `Connection(Query(..))`, and the failure of the unit of work as it is,
    /// whatever the rollback returned.
    pub open spec fn run_outcome<T, E>(
        work: Result<T, E>,
        closed: Result<(), DriverError>,
    ) -> Result<T, TransactionErrorView<E>> {
        match work {
            Ok(value) => match closed {
                Ok(_) => Ok(value),
                Err(err) => Err(TransactionErrorView::Connection(DbErrView::Query(err.message@))),
            },
            Err(err) => Err(TransactionErrorView::Transaction(err)),
        }
    }

    /// Where the transaction stands once it is closed.
    pub open spec fn state_after<T, E>(
        work: Result<T, E>,
        closed: Result<(), DriverError>,
    ) -> TransactionState {
        if work is Ok && closed is Ok {
            TransactionState::Committed
        } else {
            TransactionState::RolledBack
        }
    }

    /// Enters `Open`: the native transaction has begun.
    pub(crate) fn begin(backend: DbBackend) -> (transaction: DatabaseTransaction)
        ensures
            transaction@ == Self::opened(backend),
    {
        DatabaseTransaction { backend, state: TransactionState::Open }
    }

    /// Where the transaction stands.
    #[verifier::when_used_as_spec(spec_state)]
    pub fn state(&self) -> (state: TransactionState)
        ensures
            state == self.spec_state(),
    {
        self.state
    }

    /// Decides the native call that closes the transaction.
    pub fn settlement<T, E>(&self, work: &Result<T, E>) -> (call: Settlement)
        requires
            self.state() == TransactionState::Open,
        ensures
            call == Self::settlement_of(*work),
    {
        match work {
            Ok(_) => Settlement::Commit,
            Err(_) => Settlement::Rollback,
        }
    }

    /// Closes the transaction: `work` is how the unit of work ended, `closed`
    /// what the native call that `settlement` chose returned.
    pub fn run<T, E>(&mut self, work: Result<T, E>, closed: Result<(), DriverError>) -> (result:
        Result<T, TransactionError<E>>)
        requires
            old(self).state() == TransactionState::Open,
        ensures
            by_view(result) == Self::run_outcome(work, closed),
            final(self).state() == Self::state_after(work, closed),
            final(self).backend() == old(self).backend(),
    {
        match work {
            Ok(value) => match closed {
                Ok(_) => {
                    self.state = TransactionState::Committed;
                    Ok(value)
                },
                Err(err) => {
                    self.state = TransactionState::RolledBack;
                    Err(TransactionError::Connection(query_err(err)))
                },
            },
            Err(err) => {
                self.state = TransactionState::RolledBack;
                Err(TransactionError::Transaction(err))
            },
        }
    }
}

impl ConnectionTrait for DatabaseTransaction {
    open spec fn backend(&self) -> DbBackend {
        self@.backend
    }

    open spec fn accepts_statements(&self) -> bool {
        self.state() == TransactionState::Open
    }

    fn get_database_backend(&self) -> (backend: DbBackend) {
        self.backend
    }

    fn execute(&self, attempt: Attempt<ExecResult>) -> (result: Result<ExecResult, DbErr>) {
        match attempt {
            Attempt::Done(res) => Ok(res),
            Attempt::Failed(err) => Err(exec_err(err)),
            Attempt::NoConnection => Err(no_connection_err()),
        }
    }

    fn query_one(&self, attempt: Attempt<QueryResult>) -> (result: Result<
        Option<QueryResult>,
        DbErr,
    >) {
        match attempt {
            Attempt::Done(row) => Ok(Some(row)),
            Attempt::Failed(err) => {
                if err.no_rows {
                    Ok(None)
                } else {
                    Err(query_err(err))
                }
            },
            Attempt::NoConnection => Err(no_connection_err()),
        }
    }

    fn query_all(&self, attempt: Attempt<Vec<QueryResult>>) -> (result: Result<
        Vec<QueryResult>,
        DbErr,
    >) {
        match attempt {
            Attempt::Done(rows) => Ok(rows),
            Attempt::Failed(err) => Err(query_err(err)),
            Attempt::NoConnection => Err(no_connection_err()),
        }
    }

    fn transaction<E>(&self, attempt: Attempt<()>) -> (result: Result<
        DatabaseTransaction,
        TransactionError<E>,
    >) {
        match attempt {
            Attempt::Done(_) => Ok(DatabaseTransaction::begin(self.backend)),
            Attempt::Failed(err) => Err(TransactionError::Connection(query_err(err))),
            Attempt::NoConnection => Err(
                TransactionError::Connection(DbErr::Query(no_connection_message())),
            ),
        }
    }
}

} // verus!
