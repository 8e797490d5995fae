//! What a poll of a running query answers, from how its task ended.

use vstd::prelude::*;
use crate::error::AppError;
use crate::model::{ExecuteResult, QueryPoll, QueryStatus};
use crate::text::{push_uuid, uuid_text};

verus! {

/// How the task running a query stands when it is polled.
pub enum TaskOutcome {
    /// Not finished yet.
    Running,
    /// Finished with the statement's result or error.
    Finished(Result<ExecuteResult, AppError>),
    /// Aborted by a cancel.
    Cancelled,
    /// The task itself failed (it panicked); the text says how.
    Failed(String),
}

/// The answer to a poll: running, finished with a result, failed with an
/// error text, or cancelled.
pub fn poll_outcome(outcome: TaskOutcome) -> (p: QueryPoll)
    ensures
        match outcome {
            TaskOutcome::Running => p.status == QueryStatus::Running && p.result is None && p.error is None,
            TaskOutcome::Finished(Ok(r)) => p.status == QueryStatus::Finished && p.result == Some(r)
                && p.error is None,
            TaskOutcome::Finished(Err(e)) => p.status == QueryStatus::Error && p.result is None
                && (p.error matches Some(m) && m@ == e.message_view()),
            TaskOutcome::Cancelled => p.status == QueryStatus::Cancelled && p.result is None && p.error is None,
            TaskOutcome::Failed(t) => p.status == QueryStatus::Error && p.result is None
                && (p.error matches Some(m) && m@ == t@),
        },
{
    match outcome {
        TaskOutcome::Running => QueryPoll { status: QueryStatus::Running, result: None, error: None },
        TaskOutcome::Finished(Ok(r)) => QueryPoll { status: QueryStatus::Finished, result: Some(r), error: None },
        TaskOutcome::Finished(Err(e)) => QueryPoll { status: QueryStatus::Error, result: None, error: Some(e.message()) },
        TaskOutcome::Cancelled => QueryPoll { status: QueryStatus::Cancelled, result: None, error: None },
        TaskOutcome::Failed(t) => QueryPoll { status: QueryStatus::Error, result: None, error: Some(t) },
    }
}

/// The error for a query id that is not (or no longer) running.
pub fn query_not_found(id: u128) -> (e: AppError)
    ensures
        e matches AppError::NotFound(m) && m@ == "query not found: "@ + uuid_text(id),
{
    let mut m = String::from_str("query not found: ");
    push_uuid(&mut m, id);
    AppError::NotFound(m)
}

} // verus!
