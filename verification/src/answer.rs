//! The answer of a call that can be cut short.

use crate::error::{breaks, broken, internal_error, McpError};
use vstd::prelude::*;

verus! {

/// How a call that can be cut short ended.
#[derive(Debug, Clone, PartialEq, Eq)]
pub enum CallOutcome<A> {
    Ready(A),
    /// The client withdrew the request.
    Cancelled,
    /// The state that the call read was replaced under it.
    Superseded,
    Panicked,
}

/// The answer of a call: its own where it has one, an invitation to ask again where the state
/// was replaced under it, and else an error.
pub fn cancellable_answer<A, F: FnOnce() -> A>(
    outcome: CallOutcome<Result<A, McpError>>,
    retry: F,
) -> (answer: Result<A, McpError>)
    requires
        retry.requires(()),
    ensures
        outcome matches CallOutcome::Ready(ready) ==> answer == ready,
        outcome is Cancelled ==> broken(answer, "request cancelled"@),
        outcome is Superseded ==> answer is Ok && retry.ensures((), answer->Ok_0),
        outcome is Panicked ==> broken(answer, "internal handler panic"@),
{
    match outcome {
        CallOutcome::Ready(answer) => answer,
        CallOutcome::Cancelled => Err(internal_error("request cancelled".to_owned())),
        CallOutcome::Superseded => Ok(retry()),
        CallOutcome::Panicked => Err(internal_error("internal handler panic".to_owned())),
    }
}

/// A call that came to an end of its own is answered with it. One whose state was replaced is
/// answered with what invites to ask again, and one that was withdrawn or broke with an error of
/// the server that says which.
pub proof fn a_call_is_answered_with_its_own_end<A, F: FnOnce() -> A>(
    outcome: CallOutcome<Result<A, McpError>>,
    retry: F,
    answer: Result<A, McpError>,
)
    requires
        call_ensures(cancellable_answer::<A, F>, (outcome, retry), answer),
    ensures
        outcome matches CallOutcome::Ready(ready) ==> answer == ready,
        outcome is Cancelled ==> answer is Err && breaks(answer->Err_0, "request cancelled"@),
        outcome is Superseded ==> answer is Ok && retry.ensures((), answer->Ok_0),
        outcome is Panicked ==> answer is Err && breaks(answer->Err_0, "internal handler panic"@),
{
}

} // verus!
