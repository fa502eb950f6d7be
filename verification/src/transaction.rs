//! The transaction runner: one unit of work inside one transaction,
//! committed when the work succeeds and abandoned when it fails.
//!
//! The runner decides; the caller performs each action on the storage
//! engine and reports what happened.

use crate::error::{classifies, DatabaseError, DriverError, ServerError};
use vstd::prelude::*;

verus! {

/// An error type that can stand for a storage failure.
pub trait StorageFailure: Sized {
    /// `r` is what stands for the storage failure `kind`.
    spec fn lifted(kind: DatabaseError, r: Self) -> bool;

    /// The error that stands for a storage failure.
    fn lift(kind: DatabaseError) -> (r: Self)
        ensures
            Self::lifted(kind, r),
    ;
}

impl StorageFailure for DatabaseError {
    open spec fn lifted(kind: DatabaseError, r: DatabaseError) -> bool {
        r == kind
    }

    fn lift(kind: DatabaseError) -> (r: DatabaseError) {
        kind
    }
}

impl StorageFailure for ServerError {
    open spec fn lifted(kind: DatabaseError, r: ServerError) -> bool {
        r.is_generic_internal()
    }

    fn lift(kind: DatabaseError) -> (r: ServerError) {
        ServerError::from(kind)
    }
}

/// Where a run stands.
#[derive(Debug, PartialEq, Eq)]
pub enum TransactionState<T> {
    /// Nothing has been asked of the engine yet.
    Idle,
    /// The engine was asked to begin a transaction.
    Beginning,
    /// The work is running inside the transaction.
    Working,
    /// The work succeeded with this value; the engine was asked to commit.
    Committing(T),
    /// The run is over.
    Finished,
}

/// What the caller reports.
#[derive(Debug, PartialEq, Eq)]
pub enum TransactionEvent<T, E> {
    /// The run is to start.
    Start,
    /// The engine began a transaction, or could not.
    Began(Result<(), DriverError>),
    /// The work ended.
    Worked(Result<T, E>),
    /// The engine committed, or could not.
    Committed(Result<(), DriverError>),
}

/// What the caller is to do next.
#[derive(Debug, PartialEq, Eq)]
pub enum TransactionAction<T, E> {
    /// Begin a transaction.
    Begin,
    /// Run the work inside the transaction.
    Work,
    /// Commit the transaction.
    Commit,
    /// Abandon the transaction, uncommitted, and answer with the work's
    /// error.
    Abort(E),
    /// Answer: no transaction is open any more.
    Finish(Result<T, E>),
}

impl<T> TransactionState<T> {
    /// `event` is a report that this state waits for.
    pub open spec fn expects<E>(self, event: TransactionEvent<T, E>) -> bool {
        match self {
            TransactionState::Idle => event is Start,
            TransactionState::Beginning => event is Began,
            TransactionState::Working => event is Worked,
            TransactionState::Committing(_) => event is Committed,
            TransactionState::Finished => false,
        }
    }

    /// Whether `event` is a report that this state waits for.
    pub fn accepts<E>(&self, event: &TransactionEvent<T, E>) -> (r: bool)
        ensures
            r == self.expects(*event),
    {
        match self {
            TransactionState::Idle => matches!(event, TransactionEvent::Start),
            TransactionState::Beginning => matches!(event, TransactionEvent::Began(_)),
            TransactionState::Working => matches!(event, TransactionEvent::Worked(_)),
            TransactionState::Committing(_) => matches!(event, TransactionEvent::Committed(_)),
            TransactionState::Finished => false,
        }
    }
}

/// `x` is the caller's error for the driver failure `e`.
pub open spec fn storage_error<E: StorageFailure>(e: DriverError, x: E) -> bool {
    exists|kind: DatabaseError| classifies(e, kind) && E::lifted(kind, x)
}

/// The runner's rule: from a state and a report to the next state and the
/// next action.
pub open spec fn transaction_spec<T, E: StorageFailure>(
    state: TransactionState<T>,
    event: TransactionEvent<T, E>,
    next: TransactionState<T>,
    action: TransactionAction<T, E>,
) -> bool {
    match (state, event) {
        (TransactionState::Idle, TransactionEvent::Start) => {
            next == TransactionState::<T>::Beginning && action == TransactionAction::<T, E>::Begin
        },
        (TransactionState::Beginning, TransactionEvent::Began(Ok(_))) => {
            next == TransactionState::<T>::Working && action == TransactionAction::<T, E>::Work
        },
        (TransactionState::Beginning, TransactionEvent::Began(Err(e))) => {
            &&& next == TransactionState::<T>::Finished
            &&& action matches TransactionAction::Finish(Err(x))
            &&& storage_error(e, x)
        },
        (TransactionState::Working, TransactionEvent::Worked(Ok(value))) => {
            next == TransactionState::Committing(value) && action == TransactionAction::<
                T,
                E,
            >::Commit
        },
        (TransactionState::Working, TransactionEvent::Worked(Err(e))) => {
            next == TransactionState::<T>::Finished && action == TransactionAction::<T, E>::Abort(e)
        },
        (TransactionState::Committing(value), TransactionEvent::Committed(Ok(_))) => {
            next == TransactionState::<T>::Finished && action == TransactionAction::<
                T,
                E,
            >::Finish(Ok(value))
        },
        (TransactionState::Committing(_), TransactionEvent::Committed(Err(e))) => {
            &&& next == TransactionState::<T>::Finished
            &&& action matches TransactionAction::Finish(Err(x))
            &&& storage_error(e, x)
        },
        _ => false,
    }
}

/// One step of a run. The caller starts in [`TransactionState::Idle`] with
/// [`TransactionEvent::Start`], performs each action and reports its
/// outcome, until the action is `Abort` or `Finish`.
pub fn transaction<T, E: StorageFailure>(
    state: TransactionState<T>,
    event: TransactionEvent<T, E>,
) -> (r: (TransactionState<T>, TransactionAction<T, E>))
    requires
        state.expects(event),
    ensures
        transaction_spec(state, event, r.0, r.1),
{
    match state {
        TransactionState::Idle => (TransactionState::Beginning, TransactionAction::Begin),
        TransactionState::Beginning => match event {
            TransactionEvent::Began(Ok(_)) => (TransactionState::Working, TransactionAction::Work),
            TransactionEvent::Began(Err(e)) => {
                let kind = DatabaseError::from(e);
                (TransactionState::Finished, TransactionAction::Finish(Err(E::lift(kind))))
            },
            _ => unreached(),
        },
        TransactionState::Working => match event {
            TransactionEvent::Worked(Ok(value)) => (
                TransactionState::Committing(value),
                TransactionAction::Commit,
            ),
            TransactionEvent::Worked(Err(e)) => (
                TransactionState::Finished,
                TransactionAction::Abort(e),
            ),
            _ => unreached(),
        },
        TransactionState::Committing(value) => match event {
            TransactionEvent::Committed(Ok(_)) => (
                TransactionState::Finished,
                TransactionAction::Finish(Ok(value)),
            ),
            TransactionEvent::Committed(Err(e)) => {
                let kind = DatabaseError::from(e);
                (TransactionState::Finished, TransactionAction::Finish(Err(E::lift(kind))))
            },
            _ => unreached(),
        },
        TransactionState::Finished => unreached(),
    }
}

/// A database whose work runs inside transactions.
pub trait BaseDatabase {
    /// One step of a run: see [`transaction`].
    fn transaction<T, E: StorageFailure>(
        state: TransactionState<T>,
        event: TransactionEvent<T, E>,
    ) -> (r: (TransactionState<T>, TransactionAction<T, E>))
        requires
            state.expects(event),
        ensures
            transaction_spec(state, event, r.0, r.1),
    {
        transaction(state, event)
    }
}

/// The database of the authentication service.
#[derive(Debug)]
pub struct AuthDatabase;

impl BaseDatabase for AuthDatabase {

}

/// The engine is asked to commit only after the work has succeeded, and
/// the value that is answered after the commit is the work's own.
pub proof fn lemma_commit_only_on_success<T, E: StorageFailure>(
    state: TransactionState<T>,
    event: TransactionEvent<T, E>,
    next: TransactionState<T>,
    action: TransactionAction<T, E>,
)
    requires
        transaction_spec(state, event, next, action),
    ensures
        action is Commit ==> (event matches TransactionEvent::Worked(Ok(value)) && next
            == TransactionState::Committing(value)),
        action matches TransactionAction::Finish(Ok(value)) ==> state
            == TransactionState::Committing(value),
{
}

/// When the work fails, nothing is committed and the work's error is
/// answered unchanged.
pub proof fn lemma_failed_work_aborts<T, E: StorageFailure>(
    error: E,
    next: TransactionState<T>,
    action: TransactionAction<T, E>,
)
    requires
        transaction_spec(
            TransactionState::<T>::Working,
            TransactionEvent::<T, E>::Worked(Err(error)),
            next,
            action,
        ),
    ensures
        action == TransactionAction::<T, E>::Abort(error),
        next == TransactionState::<T>::Finished,
{
}

} // verus!
