//! Where a resolution runs, and how it brackets a transaction of its own.

use vstd::prelude::*;
use crate::error::{StoreFailure, StoreFailureView, UuidError, UuidErrorView};
use crate::store::{Query, Reply, ReplyView};

verus! {

/// What the caller hands a resolution to run on.
#[derive(Clone, Copy, Debug, PartialEq, Eq, Structural)]
pub enum ExecutionContext {
    /// The shared pool: every query borrows a connection of its own.
    Pool,
    /// A transaction that the caller has open: every query runs on it, and
    /// the resolution neither opens another nor ends this one.
    Transaction,
}

/// What a machine wants done next. Every variant but `Done` carries the
/// machine itself, which takes the store's answer in its next step; `Done`
/// carries none, so a finished machine cannot be stepped.
#[derive(Debug)]
pub enum Step<M, T> {
    /// Open a transaction and acknowledge.
    Begin(M),
    /// Run the query and hand in its reply.
    Fetch(M, Query),
    /// Commit the transaction that was opened and acknowledge.
    Commit(M),
    /// Roll back the transaction that was opened and acknowledge.
    Rollback(M),
    /// The resolution is over.
    Done(Result<T, UuidError>),
}

pub enum StepView<M, V> {
    Begin(M),
    Fetch(M, Query),
    Commit(M),
    Rollback(M),
    Done(Result<V, UuidErrorView>),
}

/// Whether a transactional entry opens a transaction of its own: on a pool it
/// does, on the caller's transaction it does not.
pub open spec fn opens_transaction(executor: ExecutionContext) -> bool {
    executor == ExecutionContext::Pool
}

/// How a machine ends once its outcome is known. Without a transaction of its
/// own it is done at once. With one it commits after a success and rolls back
/// after a failure; `closing` is the machine that waits for the
/// acknowledgement.
pub open spec fn finish<M, V>(owned: bool, closing: M, outcome: Result<V, UuidErrorView>) -> StepView<
    M,
    V,
> {
    if !owned {
        StepView::Done(outcome)
    } else if outcome is Ok {
        StepView::Commit(closing)
    } else {
        StepView::Rollback(closing)
    }
}

/// The final outcome after the transaction was ended. A success stands only
/// if the commit was acknowledged; a failure stands whatever became of the
/// rollback.
pub open spec fn settle<V>(outcome: Result<V, UuidErrorView>, ack: ReplyView) -> Result<
    V,
    UuidErrorView,
> {
    match outcome {
        Err(error) => Err(error),
        Ok(value) => match ack {
            ReplyView::Transaction(Ok(_)) => Ok(value),
            ReplyView::Transaction(Err(failure)) => Err(UuidErrorView::StoreError(failure)),
            _ => Err(UuidErrorView::StoreError(StoreFailureView::Protocol)),
        },
    }
}

/// What a machine does with the acknowledgement of its own begin: it goes on
/// with `first`, or gives up with the store's failure. Nothing was opened
/// then, so nothing is rolled back.
pub open spec fn opened<M, V>(ack: ReplyView, first: StepView<M, V>) -> StepView<M, V> {
    match ack {
        ReplyView::Transaction(Ok(_)) => first,
        ReplyView::Transaction(Err(failure)) => StepView::Done(
            Err(UuidErrorView::StoreError(failure)),
        ),
        _ => StepView::Done(Err(UuidErrorView::StoreError(StoreFailureView::Protocol))),
    }
}

/// Settles an outcome on the acknowledgement of the commit or rollback that
/// followed it. An outcome that stands is handed back as it was.
pub fn settled<T>(outcome: Result<T, UuidError>, ack: Reply) -> (last: Result<T, UuidError>)
    ensures
        match outcome {
            Err(error) => last == Err::<T, UuidError>(error),
            Ok(value) => match ack@ {
                ReplyView::Transaction(Ok(_)) => last == Ok::<T, UuidError>(value),
                ReplyView::Transaction(Err(failure)) => last matches Err(error) && error@
                    == UuidErrorView::StoreError(failure),
                _ => last matches Err(error) && error@ == UuidErrorView::StoreError(
                    StoreFailureView::Protocol,
                ),
            },
        },
{
    match outcome {
        Err(error) => Err(error),
        Ok(value) => match ack {
            Reply::Transaction(Ok(_)) => Ok(value),
            Reply::Transaction(Err(failure)) => Err(UuidError::StoreError(failure)),
            _ => Err(UuidError::StoreError(StoreFailure::Protocol)),
        },
    }
}

impl ExecutionContext {
    /// Whether `begin` on this context opens a transaction. On a transaction
    /// it is a no-op: the open one is used.
    pub fn begin(&self) -> (opens: bool)
        ensures
            opens == opens_transaction(*self),
    {
        match self {
            ExecutionContext::Pool => true,
            ExecutionContext::Transaction => false,
        }
    }
}

} // verus!
