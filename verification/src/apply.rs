//! Writes to the search engine under the workspace lease.

use vstd::prelude::*;

verus! {

/// What went wrong with a write: the lease itself, or the operation that it admitted.
#[derive(Debug, Clone, PartialEq, Eq)]
pub enum LeaseOperationError<E> {
    Lease(E),
    Operation(E),
}

impl<E> LeaseOperationError<E> {
    /// The error, whoever raised it.
    pub open spec fn flat(self) -> E {
        match self {
            LeaseOperationError::Lease(error) => error,
            LeaseOperationError::Operation(error) => error,
        }
    }

    /// The error, whoever raised it.
    pub fn into_error(self) -> (error: E)
        ensures
            error == self.flat(),
    {
        match self {
            LeaseOperationError::Lease(error) => error,
            LeaseOperationError::Operation(error) => error,
        }
    }
}

/// How a write that needs the lease ended.
#[derive(Debug, Clone, PartialEq, Eq)]
pub enum LeaseOperationOutcome<T, E> {
    Applied(T),
    TransientRefusal,
    Superseded,
    Released,
    OperationError(LeaseOperationError<E>),
}

/// How a fence let a write through.
#[derive(Debug, Clone, PartialEq, Eq)]
pub enum FenceOutcome<T> {
    Applied(T),
    TransientRefusal,
    Superseded,
    Released,
}

/// How a write to the shared search engine ended.
#[derive(Debug, Clone, PartialEq, Eq)]
pub enum WorkspaceSearchApply<T, E> {
    Applied(T),
    TransientRefusal,
    Superseded,
    Released,
    OperationError(E),
}

/// An error of the search engine.
#[derive(Debug, Clone, PartialEq, Eq)]
pub enum SearchError {
    /// The index or the engine that serves it.
    Index(String),
    /// The embedder of the query.
    Embedder(String),
    /// Anything else, by its message.
    Other(String),
}

/// What the lock of the shared engine gives a writer.
#[derive(Debug, Clone, PartialEq, Eq)]
pub enum EngineAccess {
    /// The lock is poisoned; the text says how.
    Poisoned(String),
    /// The lock is taken and no engine is published.
    Unpublished,
    /// The lock is taken and the engine is there.
    Available,
}

/// What a writer does about the engine.
#[derive(Debug, Clone, PartialEq, Eq)]
pub enum ApplyPlan {
    /// It runs its operation under the lease, once.
    Publish,
    /// It reports the error and runs nothing.
    Refuse(SearchError),
}

impl EngineAccess {
    /// The text that a writer without an engine reports.
    pub open spec fn refusal(self) -> Option<Seq<char>> {
        match self {
            EngineAccess::Poisoned(error) => Some(
                "workspace search engine lock poisoned: "@ + error@,
            ),
            EngineAccess::Unpublished => Some("workspace search engine is not published"@),
            EngineAccess::Available => None,
        }
    }
}

/// Decides whether an operation on the shared engine runs.
pub fn apply_workspace_search(access: EngineAccess) -> (plan: ApplyPlan)
    ensures
        plan is Publish <==> access.refusal() is None,
        plan matches ApplyPlan::Refuse(error) ==> error matches SearchError::Index(text)
            && access.refusal() == Some(text@),
{
    match access {
        EngineAccess::Poisoned(error) => {
            let mut text: String = "workspace search engine lock poisoned: ".to_owned();
            text.append(error.as_str());
            ApplyPlan::Refuse(SearchError::Index(text))
        },
        EngineAccess::Unpublished => apply_to_engine(false),
        EngineAccess::Available => apply_to_engine(true),
    }
}

/// Decides whether an operation runs once the lock of the engine is held.
pub fn apply_to_engine(published: bool) -> (plan: ApplyPlan)
    ensures
        plan is Publish <==> published,
        plan matches ApplyPlan::Refuse(error) ==> error matches SearchError::Index(text) && text@
            == "workspace search engine is not published"@,
{
    if published {
        ApplyPlan::Publish
    } else {
        ApplyPlan::Refuse(SearchError::Index("workspace search engine is not published".to_owned()))
    }
}

impl<T, E> LeaseOperationOutcome<T, E> {
    /// The outcome of the write to the engine.
    pub open spec fn applied(self) -> WorkspaceSearchApply<T, E> {
        match self {
            LeaseOperationOutcome::Applied(value) => WorkspaceSearchApply::Applied(value),
            LeaseOperationOutcome::TransientRefusal => WorkspaceSearchApply::TransientRefusal,
            LeaseOperationOutcome::Superseded => WorkspaceSearchApply::Superseded,
            LeaseOperationOutcome::Released => WorkspaceSearchApply::Released,
            LeaseOperationOutcome::OperationError(error) => WorkspaceSearchApply::OperationError(
                error.flat(),
            ),
        }
    }

    /// The outcome as a fence reports it: an admitted operation may have failed.
    pub open spec fn fenced(self) -> FenceOutcome<Result<T, E>> {
        match self {
            LeaseOperationOutcome::Applied(value) => FenceOutcome::Applied(Ok(value)),
            LeaseOperationOutcome::TransientRefusal => FenceOutcome::TransientRefusal,
            LeaseOperationOutcome::Superseded => FenceOutcome::Superseded,
            LeaseOperationOutcome::Released => FenceOutcome::Released,
            LeaseOperationOutcome::OperationError(error) => FenceOutcome::Applied(
                Err(error.flat()),
            ),
        }
    }
}

/// The outcome of a write to the engine, from that of the lease.
pub fn apply_outcome<T, E>(outcome: LeaseOperationOutcome<T, E>) -> (applied: WorkspaceSearchApply<
    T,
    E,
>)
    ensures
        applied == outcome.applied(),
{
    match outcome {
        LeaseOperationOutcome::Applied(value) => WorkspaceSearchApply::Applied(value),
        LeaseOperationOutcome::TransientRefusal => WorkspaceSearchApply::TransientRefusal,
        LeaseOperationOutcome::Superseded => WorkspaceSearchApply::Superseded,
        LeaseOperationOutcome::Released => WorkspaceSearchApply::Released,
        LeaseOperationOutcome::OperationError(error) => WorkspaceSearchApply::OperationError(
            error.into_error(),
        ),
    }
}

/// The outcome of a fenced write, from that of the lease.
pub fn search_fence_outcome<T, E>(outcome: LeaseOperationOutcome<T, E>) -> (fenced: FenceOutcome<
    Result<T, E>,
>)
    ensures
        fenced == outcome.fenced(),
{
    match outcome {
        LeaseOperationOutcome::Applied(value) => FenceOutcome::Applied(Ok(value)),
        LeaseOperationOutcome::TransientRefusal => FenceOutcome::TransientRefusal,
        LeaseOperationOutcome::Superseded => FenceOutcome::Superseded,
        LeaseOperationOutcome::Released => FenceOutcome::Released,
        LeaseOperationOutcome::OperationError(error) => FenceOutcome::Applied(
            Err(error.into_error()),
        ),
    }
}

/// The fence and the writer tell the same story of one outcome: what was refused, superseded
/// or released is that for both, and an error is the operation's, never a refusal.
pub proof fn fence_and_writer_agree<T, E>(outcome: LeaseOperationOutcome<T, E>)
    ensures
        match outcome.fenced() {
            FenceOutcome::Applied(Ok(value)) => outcome.applied() == WorkspaceSearchApply::<
                T,
                E,
            >::Applied(value),
            FenceOutcome::Applied(Err(error)) => outcome.applied() == WorkspaceSearchApply::<
                T,
                E,
            >::OperationError(error),
            FenceOutcome::TransientRefusal => outcome.applied() is TransientRefusal,
            FenceOutcome::Superseded => outcome.applied() is Superseded,
            FenceOutcome::Released => outcome.applied() is Released,
        },
{
}

/// An operation on the shared engine runs exactly where the lock is sound and an engine is
/// published. Else nothing runs, and the error of the index says which of the two is missing.
pub proof fn an_operation_runs_only_on_a_published_engine(access: EngineAccess, plan: ApplyPlan)
    requires
        call_ensures(apply_workspace_search, (access,), plan),
    ensures
        plan is Publish <==> access is Available,
        access matches EngineAccess::Poisoned(error) ==> (plan matches ApplyPlan::Refuse(
            SearchError::Index(text),
        ) && text@ == "workspace search engine lock poisoned: "@ + error@),
        access is Unpublished ==> (plan matches ApplyPlan::Refuse(SearchError::Index(text)) && text@
            == "workspace search engine is not published"@),
{
}

/// Once the lock is held, the operation runs exactly where an engine is published.
pub proof fn a_held_lock_needs_an_engine(published: bool, plan: ApplyPlan)
    requires
        call_ensures(apply_to_engine, (published,), plan),
    ensures
        plan is Publish <==> published,
        !published ==> (plan matches ApplyPlan::Refuse(SearchError::Index(text)) && text@
            == "workspace search engine is not published"@),
{
}

/// The outcome of the lease is the outcome of the write, value for value and refusal for refusal.
/// An error is handed on as it is, whoever raised it; behind a fence it is the error of an
/// operation that was let through.
pub proof fn the_outcome_of_the_lease_is_that_of_the_write<T, E>(
    outcome: LeaseOperationOutcome<T, E>,
    applied: WorkspaceSearchApply<T, E>,
    fenced: FenceOutcome<Result<T, E>>,
)
    requires
        call_ensures(apply_outcome::<T, E>, (outcome,), applied),
        call_ensures(search_fence_outcome::<T, E>, (outcome,), fenced),
    ensures
        outcome matches LeaseOperationOutcome::Applied(value) ==> (applied
            matches WorkspaceSearchApply::Applied(written) && written == value && (fenced
            matches FenceOutcome::Applied(Ok(let_through)) && let_through == value)),
        outcome is TransientRefusal <==> applied is TransientRefusal,
        outcome is TransientRefusal <==> fenced is TransientRefusal,
        outcome is Superseded <==> applied is Superseded,
        outcome is Superseded <==> fenced is Superseded,
        outcome is Released <==> applied is Released,
        outcome is Released <==> fenced is Released,
        outcome matches LeaseOperationOutcome::OperationError(LeaseOperationError::Lease(error))
            ==> (applied matches WorkspaceSearchApply::OperationError(given) && given == error && (
        fenced matches FenceOutcome::Applied(Err(given)) && given == error)),
        outcome matches LeaseOperationOutcome::OperationError(
            LeaseOperationError::Operation(error),
        ) ==> (applied matches WorkspaceSearchApply::OperationError(given) && given == error && (
        fenced matches FenceOutcome::Applied(Err(given)) && given == error)),
{
}

/// An error is the same whoever raised it.
pub proof fn an_error_is_the_same_whoever_raised_it<E>(error: E, by_lease: E, by_operation: E)
    requires
        call_ensures(
            LeaseOperationError::<E>::into_error,
            (LeaseOperationError::Lease(error),),
            by_lease,
        ),
        call_ensures(
            LeaseOperationError::<E>::into_error,
            (LeaseOperationError::Operation(error),),
            by_operation,
        ),
    ensures
        by_lease == error,
        by_operation == error,
{
}

} // verus!
