//! The background embedding worker.
//!
//! A worker owns the flight from the claim that started it to its end. It embeds, swaps the
//! new index in, and runs again while it is asked to. Whatever ends it, the flight is free
//! afterwards and the runtime no longer says that it is indexing.

use crate::apply::LeaseOperationOutcome;
use crate::embed_flight::{
    EmbedClaimGuard, EmbedFlight, EmbedStatusGuard, SemanticRuntimeStatus, unfinished_text,
};
use crate::retry_window::{Moment, RetryDecision, RetryOwner, RetryStop, RetryWindow, Span};
use vstd::prelude::*;

verus! {

/// Whether this process may still write the derived caches of the workspace.
#[derive(Debug, Clone, Copy, PartialEq, Eq, Structural)]
pub struct LeaseStanding {
    pub superseded: bool,
    pub released: bool,
}

/// How the swap of a prepared index ended.
#[derive(Debug, Clone)]
pub enum SwapResult {
    EngineUnavailable,
    EngineLockError(String),
    /// What the lease answered. The text of an error is the debug form of the whole error, with
    /// the name of the variant that it stands under, so that it reads the same out of either.
    Lease(LeaseOperationOutcome<(), String>),
}

/// How one pass of embedding ended.
#[derive(Debug, Clone)]
pub enum EmbedResult {
    /// The vectors are stored and the prepared index was handed to the engine.
    Indexed(SwapResult),
    TransientRefusal,
    Superseded,
    Released,
    Failed(String),
}

/// What the worker does next.
#[derive(Debug, Clone, Copy, PartialEq, Eq, Structural)]
pub enum WorkerStep {
    /// It ends.
    Exit,
    /// It runs another pass, after the wait where there is one.
    Again(Option<Span>),
}

/// The text of an exhausted retry budget.
pub open spec fn exhausted_text() -> Seq<char> {
    "embedding publication retry budget exhausted"@
}

/// The text of a lost workspace.
pub open spec fn superseded_text() -> Seq<char> {
    "embedding stopped after workspace ownership was superseded"@
}

impl EmbedResult {
    /// The text of the failure that ends the worker, where the pass ended in one.
    pub open spec fn failure(self) -> Option<Seq<char>> {
        match self {
            EmbedResult::Indexed(SwapResult::EngineUnavailable) => Some(
                "embedding engine unavailable"@,
            ),
            EmbedResult::Indexed(SwapResult::EngineLockError(error)) => Some(
                "embedding engine lock error: "@ + error@,
            ),
            EmbedResult::Indexed(SwapResult::Lease(outcome)) => match outcome {
                LeaseOperationOutcome::Superseded => Some(superseded_text()),
                LeaseOperationOutcome::Released => Some(superseded_text()),
                LeaseOperationOutcome::OperationError(error) => Some(
                    "embedding publication failed: "@ + error.flat()@,
                ),
                _ => None,
            },
            EmbedResult::Superseded => Some(superseded_text()),
            EmbedResult::Released => Some(superseded_text()),
            EmbedResult::Failed(error) => Some("background embedding failed: "@ + error@),
            EmbedResult::TransientRefusal => None,
        }
    }

    /// The pass was refused for now.
    pub open spec fn is_refusal(self) -> bool {
        ||| self is TransientRefusal
        ||| self matches EmbedResult::Indexed(SwapResult::Lease(outcome)) && outcome
            is TransientRefusal
    }

    /// The new index is live.
    pub open spec fn is_published(self) -> bool {
        self matches EmbedResult::Indexed(SwapResult::Lease(outcome)) && outcome is Applied
    }
}

/// Every pass fails, was refused or published its index.
pub proof fn a_pass_has_one_verdict(result: EmbedResult)
    ensures
        result.is_published() ==> !result.is_refusal() && result.failure() is None,
        result.is_refusal() ==> !result.is_published() && result.failure() is None,
        result.failure() is None ==> result.is_refusal() || result.is_published(),
{
}

enum Verdict {
    Published,
    Refused,
    Failed(String),
}

fn prefixed(prefix: &str, detail: &str) -> (text: String)
    ensures
        text@ == prefix@ + detail@,
{
    let mut text: String = prefix.to_owned();
    text.append(detail);
    text
}

fn verdict_of(result: EmbedResult) -> (verdict: Verdict)
    ensures
        verdict is Published <==> result.is_published(),
        verdict is Refused <==> result.is_refusal(),
        verdict matches Verdict::Failed(text) ==> result.failure() == Some(text@),
{
    match result {
        EmbedResult::Indexed(swapped) => match swapped {
            SwapResult::EngineUnavailable => Verdict::Failed(
                "embedding engine unavailable".to_owned(),
            ),
            SwapResult::EngineLockError(error) => Verdict::Failed(
                prefixed("embedding engine lock error: ", error.as_str()),
            ),
            SwapResult::Lease(outcome) => match outcome {
                LeaseOperationOutcome::Applied(_) => Verdict::Published,
                LeaseOperationOutcome::TransientRefusal => Verdict::Refused,
                LeaseOperationOutcome::Superseded => Verdict::Failed(
                    "embedding stopped after workspace ownership was superseded".to_owned(),
                ),
                LeaseOperationOutcome::Released => Verdict::Failed(
                    "embedding stopped after workspace ownership was superseded".to_owned(),
                ),
                LeaseOperationOutcome::OperationError(error) => {
                    let detail: String = error.into_error();
                    Verdict::Failed(prefixed("embedding publication failed: ", detail.as_str()))
                },
            },
        },
        EmbedResult::TransientRefusal => Verdict::Refused,
        EmbedResult::Superseded => Verdict::Failed(
            "embedding stopped after workspace ownership was superseded".to_owned(),
        ),
        EmbedResult::Released => Verdict::Failed(
            "embedding stopped after workspace ownership was superseded".to_owned(),
        ),
        EmbedResult::Failed(error) => Verdict::Failed(
            prefixed("background embedding failed: ", error.as_str()),
        ),
    }
}

/// The owner of the flight.
#[derive(Debug, Clone, Copy, PartialEq, Eq, Structural)]
pub struct EmbedWorker {
    pub claim: EmbedClaimGuard,
    pub status: EmbedStatusGuard,
    pub publish_retry: RetryWindow,
}

impl EmbedWorker {
    /// The worker runs and holds `flight`.
    pub open spec fn owns(self, flight: EmbedFlight) -> bool {
        self.claim.armed && !self.status.finished && flight.in_flight
    }

    /// The worker has ended: its guards have nothing left to do, and a later owner of the
    /// flight is safe from it.
    pub open spec fn gone(self) -> bool {
        !self.claim.armed && self.status.finished
    }
}

/// A worker, the flight that it holds and the status that clients read of it.
pub struct WorkerState {
    pub worker: EmbedWorker,
    pub flight: EmbedFlight,
    pub runtime: SemanticRuntimeStatus,
}

impl WorkerState {
    pub open spec fn of(
        worker: EmbedWorker,
        flight: EmbedFlight,
        runtime: SemanticRuntimeStatus,
    ) -> WorkerState {
        WorkerState { worker, flight, runtime }
    }

    /// The worker ended and left the flight to the next owner, with this text for its clients.
    pub open spec fn ended_with(self, text: Seq<char>, before: WorkerState) -> bool {
        &&& self.worker.gone()
        &&& self.flight == before.flight.released()
        &&& self.runtime.failed_with(text)
    }
}

/// The thread of a started worker could not be made.
pub open spec fn not_spawned(before: WorkerState, error: Seq<char>, after: WorkerState) -> bool {
    after.ended_with("could not spawn embedding thread: "@ + error, before)
}

/// The guards of a worker ran: each does what is left for it to do.
pub open spec fn retired(before: WorkerState, after: WorkerState) -> bool {
    &&& after.worker.gone()
    &&& after.worker.publish_retry == before.worker.publish_retry
    &&& after.flight == if before.worker.claim.armed {
        before.flight.released()
    } else {
        before.flight
    }
    &&& before.worker.status.finished ==> after.runtime == before.runtime
    &&& !before.worker.status.finished ==> after.runtime.failed_with(unfinished_text())
}

/// A pass was about to begin and did, or the budget of a refused publication was spent.
pub open spec fn pass_begun(
    before: WorkerState,
    now: Moment,
    runs: bool,
    after: WorkerState,
) -> bool {
    &&& runs == !before.worker.publish_retry.overdue(now)
    &&& runs ==> after == (WorkerState { flight: before.flight.begun(), ..before })
    &&& !runs ==> after.ended_with(exhausted_text(), before)
}

/// A write inside a pass was refused, and is tried again after `wait` or given up.
pub open spec fn refused_write(
    before: EmbedWorker,
    now: Moment,
    delay: Span,
    wait: Option<Span>,
    after: EmbedWorker,
) -> bool {
    let (window, decision) = before.publish_retry.after_refusal(now, delay);
    &&& after == (EmbedWorker { publish_retry: window, ..before })
    &&& wait == match decision {
        RetryDecision::RetryAfter(wait) => Some(wait),
        RetryDecision::Stop(_) => None,
    }
}

/// The wait of a refused write is over, and it is tried again or given up.
pub open spec fn waited_for_write(
    before: EmbedWorker,
    now: Moment,
    again: bool,
    after: EmbedWorker,
) -> bool {
    &&& again == !before.publish_retry.overdue(now)
    &&& again ==> after == before
    &&& !again ==> after == (EmbedWorker {
        publish_retry: before.publish_retry.stopped_for(RetryStop::Exhausted),
        ..before
    })
}

/// A pass ended with `result`, and the worker goes on with `step`.
pub open spec fn pass_ended(
    before: WorkerState,
    result: EmbedResult,
    now: Moment,
    delay: Span,
    step: WorkerStep,
    after: WorkerState,
) -> bool {
    &&& result.failure() matches Some(text) ==> step == WorkerStep::Exit && after.ended_with(
        text,
        before,
    )
    &&& result.is_refusal() ==> {
        let (window, decision) = before.worker.publish_retry.after_refusal(now, delay);
        match decision {
            RetryDecision::RetryAfter(wait) => {
                &&& step == WorkerStep::Again(Some(wait))
                &&& after == (WorkerState {
                    worker: EmbedWorker { publish_retry: window, ..before.worker },
                    flight: before.flight.claimed(),
                    runtime: before.runtime,
                })
            },
            RetryDecision::Stop(_) => step == WorkerStep::Exit && after.ended_with(
                exhausted_text(),
                before,
            ),
        }
    }
    &&& result.is_published() ==> {
        &&& after.flight == before.flight.ended()
        &&& after.worker.publish_retry == before.worker.publish_retry.cleared()
        &&& before.flight.rerun_pending ==> {
            &&& step == WorkerStep::Again(None)
            &&& after.worker.claim == before.worker.claim
            &&& after.worker.status == before.worker.status
            &&& after.runtime == before.runtime
        }
        &&& !before.flight.rerun_pending ==> {
            &&& step == WorkerStep::Exit
            &&& after.worker.gone()
            &&& after.runtime == SemanticRuntimeStatus::Ready
        }
    }
}

impl EmbedWorker {
    /// The thread of a started worker could not be made.
    pub fn spawn_failed(
        &mut self,
        error: &str,
        flight: &mut EmbedFlight,
        runtime: &mut SemanticRuntimeStatus,
    )
        ensures
            not_spawned(
                WorkerState::of(*old(self), *old(flight), *old(runtime)),
                error@,
                WorkerState::of(*final(self), *final(flight), *final(runtime)),
            ),
    {
        self.claim.disarm();
        self.status.finish();
        flight.release();
        *runtime = SemanticRuntimeStatus::Failed(
            prefixed("could not spawn embedding thread: ", error),
        );
    }

    /// The worker is gone, on whatever way: its guards run, once.
    pub fn retire(&mut self, flight: &mut EmbedFlight, runtime: &mut SemanticRuntimeStatus)
        ensures
            retired(
                WorkerState::of(*old(self), *old(flight), *old(runtime)),
                WorkerState::of(*final(self), *final(flight), *final(runtime)),
            ),
    {
        self.status.on_drop(runtime);
        self.status.finish();
        self.claim.on_drop(flight);
        self.claim.disarm();
    }

    fn fail(
        &mut self,
        message: String,
        flight: &mut EmbedFlight,
        runtime: &mut SemanticRuntimeStatus,
    )
        requires
            old(self).owns(*old(flight)),
        ensures
            *final(flight) == old(flight).released(),
            final(runtime).failed_with(message@),
            final(self).gone(),
            final(self).publish_retry == old(self).publish_retry,
    {
        *runtime = SemanticRuntimeStatus::Failed(message);
        self.status.finish();
        self.retire(flight, runtime);
    }

    /// The worker is about to run a pass: true where it may. Past the deadline of a refused
    /// publication it ends.
    pub fn begin_pass(
        &mut self,
        now: Moment,
        flight: &mut EmbedFlight,
        runtime: &mut SemanticRuntimeStatus,
    ) -> (runs: bool)
        requires
            old(self).owns(*old(flight)),
        ensures
            pass_begun(
                WorkerState::of(*old(self), *old(flight), *old(runtime)),
                now,
                runs,
                WorkerState::of(*final(self), *final(flight), *final(runtime)),
            ),
            runs ==> final(self).owns(*final(flight)),
            !runs ==> final(self).gone(),
    {
        if self.publish_retry.expired(now) {
            self.fail(
                "embedding publication retry budget exhausted".to_owned(),
                flight,
                runtime,
            );
            return false;
        }
        flight.begin_pass();
        true
    }

    /// A write inside the pass was refused: the wait before the next try, or nothing where the
    /// pass gives the write up.
    pub fn write_refused(&mut self, now: Moment, delay: Span) -> (wait: Option<Span>)
        ensures
            refused_write(*old(self), now, delay, wait, *final(self)),
    {
        match self.publish_retry.refused(now, delay) {
            RetryDecision::RetryAfter(wait) => Some(wait),
            RetryDecision::Stop(_) => None,
        }
    }

    /// The wait of a refused write is over: true where the write is tried again.
    pub fn write_waited(&mut self, now: Moment) -> (again: bool)
        ensures
            waited_for_write(*old(self), now, again, *final(self)),
    {
        !self.publish_retry.expired(now)
    }

    /// The pass ended. A failure ends the worker with its text. A refusal runs the pass again
    /// after a wait, until the budget is spent. A published index ends the worker as ready,
    /// unless a request came during the pass.
    pub fn end_pass(
        &mut self,
        result: EmbedResult,
        now: Moment,
        delay: Span,
        flight: &mut EmbedFlight,
        runtime: &mut SemanticRuntimeStatus,
    ) -> (step: WorkerStep)
        requires
            old(self).owns(*old(flight)),
        ensures
            pass_ended(
                WorkerState::of(*old(self), *old(flight), *old(runtime)),
                result,
                now,
                delay,
                step,
                WorkerState::of(*final(self), *final(flight), *final(runtime)),
            ),
            step == WorkerStep::Exit ==> {
                &&& !final(flight).in_flight
                &&& final(runtime).settled()
                &&& final(self).gone()
            },
            step != WorkerStep::Exit ==> final(self).owns(*final(flight)),
    {
        proof {
            a_pass_has_one_verdict(result);
        }
        let wait: Option<Span> = match verdict_of(result) {
            Verdict::Failed(message) => {
                self.fail(message, flight, runtime);
                return WorkerStep::Exit;
            },
            Verdict::Refused => match self.publish_retry.refused(now, delay) {
                RetryDecision::RetryAfter(wait) => {
                    let _ = flight.claim();
                    Some(wait)
                },
                RetryDecision::Stop(_) => {
                    self.fail(
                        "embedding publication retry budget exhausted".to_owned(),
                        flight,
                        runtime,
                    );
                    return WorkerStep::Exit;
                },
            },
            Verdict::Published => {
                self.publish_retry.complete();
                None
            },
        };
        if !flight.finish_pass() {
            self.claim.disarm();
            *runtime = SemanticRuntimeStatus::Ready;
            self.status.finish();
            self.retire(flight, runtime);
            return WorkerStep::Exit;
        }
        WorkerStep::Again(wait)
    }
}

/// Starts a worker where the lease allows it and nobody embeds yet. A request that finds a
/// worker is recorded for it.
pub fn spawn_embed_pass(
    lease: LeaseStanding,
    publish_retry_budget: Span,
    flight: &mut EmbedFlight,
    runtime: &mut SemanticRuntimeStatus,
) -> (worker: Option<EmbedWorker>)
    ensures
        worker is Some <==> (!lease.superseded && !lease.released && !old(flight).in_flight),
        *final(flight) == if lease.superseded || lease.released {
            *old(flight)
        } else {
            old(flight).claimed()
        },
        worker is None ==> *final(runtime) == *old(runtime),
        worker matches Some(started) ==> {
            &&& started.owns(*final(flight))
            &&& started.publish_retry == RetryWindow::fresh(
                RetryOwner::OverlayEmbedding,
                publish_retry_budget,
            )
            &&& *final(runtime) == SemanticRuntimeStatus::Indexing
        },
{
    if lease.superseded || lease.released {
        return None;
    }
    if !flight.claim() {
        return None;
    }
    *runtime = SemanticRuntimeStatus::Indexing;
    Some(
        EmbedWorker {
            claim: EmbedClaimGuard::new(),
            status: EmbedStatusGuard::new(),
            publish_retry: RetryWindow::with_budget(
                RetryOwner::OverlayEmbedding,
                publish_retry_budget,
            ),
        },
    )
}

/// What happens to a worker, or around it.
pub enum WorkerEvent {
    /// Its thread could not be made.
    NotSpawned(Seq<char>),
    /// It is about to run a pass.
    Begin { now: Moment, runs: bool },
    /// A write inside its pass is refused.
    WriteRefused { now: Moment, delay: Span, wait: Option<Span> },
    /// The wait of a refused write is over.
    WriteWaited { now: Moment, again: bool },
    /// Its pass ends.
    End { result: EmbedResult, now: Moment, delay: Span, step: WorkerStep },
    /// Its thread is gone, on whatever way.
    Lost,
    /// Somebody else asks for a pass.
    Requested,
    /// Somebody else writes the status.
    Noted,
}

impl WorkerEvent {
    /// The end of a pass whose index is live.
    pub open spec fn publishes(self) -> bool {
        self matches WorkerEvent::End { result, .. } && result.is_published()
    }
}

/// The event leads from one state to the next.
pub open spec fn leads(before: WorkerState, event: WorkerEvent, after: WorkerState) -> bool {
    match event {
        WorkerEvent::NotSpawned(error) => not_spawned(before, error, after),
        WorkerEvent::Begin { now, runs } => pass_begun(before, now, runs, after),
        WorkerEvent::WriteRefused { now, delay, wait } => {
            &&& refused_write(before.worker, now, delay, wait, after.worker)
            &&& after == (WorkerState { worker: after.worker, ..before })
        },
        WorkerEvent::WriteWaited { now, again } => {
            &&& waited_for_write(before.worker, now, again, after.worker)
            &&& after == (WorkerState { worker: after.worker, ..before })
        },
        WorkerEvent::End { result, now, delay, step } => pass_ended(
            before,
            result,
            now,
            delay,
            step,
            after,
        ),
        WorkerEvent::Lost => retired(before, after),
        WorkerEvent::Requested => after == (WorkerState {
            flight: before.flight.claimed(),
            ..before
        }),
        WorkerEvent::Noted => after == (WorkerState { runtime: after.runtime, ..before }),
    }
}

/// The states of a worker from its start on: each event leads to the next state, and nothing
/// happens to a worker that has ended.
pub open spec fn is_run(states: Seq<WorkerState>, events: Seq<WorkerEvent>) -> bool {
    &&& states.len() == events.len() + 1
    &&& states[0].worker.owns(states[0].flight)
    &&& forall|i: int|
        0 <= i < events.len() ==> !states[i].worker.gone() && #[trigger] leads(
            states[i],
            events[i],
            states[i + 1],
        )
}

/// However many passes a worker runs, and however it ends, it holds its flight up to its end, and
/// then the flight is free and the status settled. It is ready exactly where the last thing that
/// happened is a pass that published its index, and else it says why it failed.
pub proof fn whatever_ends_a_worker_its_flight_is_free(
    states: Seq<WorkerState>,
    events: Seq<WorkerEvent>,
)
    requires
        is_run(states, events),
    ensures
        ({
            let end = states.last();
            &&& end.worker.gone() || end.worker.owns(end.flight)
            &&& end.worker.gone() ==> {
                &&& !end.flight.in_flight
                &&& end.runtime.settled()
                &&& end.runtime is Ready <==> events.last().publishes()
            }
        }),
    decreases events.len(),
{
    if events.len() > 0 {
        let last = events.len() - 1;
        let earlier = states.drop_last();
        let before = events.drop_last();
        assert forall|i: int| 0 <= i < before.len() implies !earlier[i].worker.gone()
            && #[trigger] leads(earlier[i], before[i], earlier[i + 1]) by {
            assert(leads(states[i], events[i], states[i + 1]));
        }
        whatever_ends_a_worker_its_flight_is_free(earlier, before);
        assert(leads(states[last], events[last], states[last + 1]));
        if let WorkerEvent::End { result, .. } = events[last] {
            a_pass_has_one_verdict(result);
        }
    }
}

/// A worker that ended has let go of the flight, keeps nothing to do, and its clients read this.
pub open spec fn ended_saying(
    worker: EmbedWorker,
    flight_before: EmbedFlight,
    flight: EmbedFlight,
    runtime: SemanticRuntimeStatus,
    text: Seq<char>,
) -> bool {
    &&& !worker.claim.armed && worker.status.finished
    &&& !flight.in_flight && flight.rerun_pending == flight_before.rerun_pending
    &&& runtime matches SemanticRuntimeStatus::Failed(said) && said@ == text
}

/// A window that goes on has counted one more refusal, is held to this deadline, and is else as it
/// was.
pub open spec fn counts_a_refusal(window: RetryWindow, deadline: int, after: RetryWindow) -> bool {
    &&& after.owner == window.owner
    &&& after.budget == window.budget
    &&& after.stopped is None
    &&& after.deadline matches Some(held) && held.nanos == deadline
    &&& after.streak == if window.streak < u32::MAX {
        window.streak + 1
    } else {
        u32::MAX as int
    }
}

/// A worker starts exactly where the lease is this process's own and nobody embeds. It then holds
/// the flight, clients read that it is indexing, and its budget is the one that was given. A
/// request that finds a worker is remembered for it; one without the lease changes nothing.
pub proof fn a_worker_starts_where_it_may(
    lease: LeaseStanding,
    budget: Span,
    worker: Option<EmbedWorker>,
)
    ensures
        forall|flight: &mut EmbedFlight, runtime: &mut SemanticRuntimeStatus| #[trigger]
            call_ensures(spawn_embed_pass, (lease, budget, flight, runtime), worker) ==> {
                let allowed = !lease.superseded && !lease.released;
                &&& worker is Some <==> allowed && !flight.in_flight
                &&& !allowed ==> *final(flight) == *flight
                &&& allowed ==> final(flight).in_flight
                &&& allowed && flight.in_flight ==> final(flight).rerun_pending
                &&& allowed && !flight.in_flight ==> final(flight).rerun_pending
                    == flight.rerun_pending
                &&& worker is None ==> *final(runtime) == *runtime
                &&& worker matches Some(started) ==> {
                    &&& *final(runtime) is Indexing
                    &&& started.claim.armed && !started.status.finished
                    &&& started.publish_retry.owner is OverlayEmbedding
                    &&& started.publish_retry.budget == budget
                    &&& started.publish_retry.deadline is None
                    &&& started.publish_retry.stopped is None
                    &&& started.publish_retry.streak == 0
                }
            },
{
}

/// A pass begins unless the deadline of a refused publication has come. It then covers all that
/// was asked for so far and changes nothing else. Past the deadline the worker ends, saying that
/// its budget is exhausted.
pub proof fn a_pass_begins_within_the_budget(now: Moment, runs: bool)
    ensures
        forall|
            worker: &mut EmbedWorker,
            flight: &mut EmbedFlight,
            runtime: &mut SemanticRuntimeStatus,
        |
            worker.claim.armed && !worker.status.finished && flight.in_flight && #[trigger]
            call_ensures(EmbedWorker::begin_pass, (worker, now, flight, runtime), runs) ==> {
                let overdue = worker.publish_retry.deadline matches Some(deadline)
                    && deadline.nanos <= now.nanos;
                &&& runs <==> !overdue
                &&& runs ==> *final(worker) == *worker && *final(runtime) == *runtime
                    && final(flight).in_flight && !final(flight).rerun_pending
                &&& !runs ==> ended_saying(
                    *final(worker),
                    *flight,
                    *final(flight),
                    *final(runtime),
                    "embedding publication retry budget exhausted"@,
                )
            },
{
}

/// A pass that failed ends its worker, and clients read why: the engine that could not be had or
/// locked, the lost workspace, the publication or the embedding that failed, with its own words.
pub proof fn a_failed_pass_says_why(
    result: EmbedResult,
    now: Moment,
    delay: Span,
    step: WorkerStep,
)
    ensures
        forall|
            worker: &mut EmbedWorker,
            flight: &mut EmbedFlight,
            runtime: &mut SemanticRuntimeStatus,
        |
            worker.claim.armed && !worker.status.finished && flight.in_flight && #[trigger]
            call_ensures(
                EmbedWorker::end_pass,
                (worker, result, now, delay, flight, runtime),
                step,
            ) ==> {
                let lost = "embedding stopped after workspace ownership was superseded"@;
                &&& result matches EmbedResult::Failed(error) ==> step is Exit && ended_saying(
                    *final(worker),
                    *flight,
                    *final(flight),
                    *final(runtime),
                    "background embedding failed: "@ + error@,
                )
                &&& result is Superseded || result is Released ==> step is Exit && ended_saying(
                    *final(worker),
                    *flight,
                    *final(flight),
                    *final(runtime),
                    lost,
                )
                &&& result matches EmbedResult::Indexed(SwapResult::EngineUnavailable) ==> step
                    is Exit && ended_saying(
                    *final(worker),
                    *flight,
                    *final(flight),
                    *final(runtime),
                    "embedding engine unavailable"@,
                )
                &&& result matches EmbedResult::Indexed(SwapResult::EngineLockError(error)) ==> step
                    is Exit && ended_saying(
                    *final(worker),
                    *flight,
                    *final(flight),
                    *final(runtime),
                    "embedding engine lock error: "@ + error@,
                )
                &&& result matches EmbedResult::Indexed(SwapResult::Lease(outcome)) ==> {
                    &&& outcome is Superseded || outcome is Released ==> step is Exit
                        && ended_saying(
                        *final(worker),
                        *flight,
                        *final(flight),
                        *final(runtime),
                        lost,
                    )
                    &&& outcome matches LeaseOperationOutcome::OperationError(
                        crate::apply::LeaseOperationError::Lease(error),
                    ) ==> step is Exit && ended_saying(
                        *final(worker),
                        *flight,
                        *final(flight),
                        *final(runtime),
                        "embedding publication failed: "@ + error@,
                    )
                    &&& outcome matches LeaseOperationOutcome::OperationError(
                        crate::apply::LeaseOperationError::Operation(error),
                    ) ==> step is Exit && ended_saying(
                        *final(worker),
                        *flight,
                        *final(flight),
                        *final(runtime),
                        "embedding publication failed: "@ + error@,
                    )
                }
            },
{
}

/// A pass that published its index meets the obligation: its worker ends as ready, unless a
/// request came during the pass, and then it runs again at once and keeps the flight.
pub proof fn a_published_pass_meets_the_obligation(
    now: Moment,
    delay: Span,
    step: WorkerStep,
)
    ensures
        forall|
            worker: &mut EmbedWorker,
            flight: &mut EmbedFlight,
            runtime: &mut SemanticRuntimeStatus,
        |
            worker.claim.armed && !worker.status.finished && flight.in_flight && #[trigger]
            call_ensures(
                EmbedWorker::end_pass,
                (
                    worker,
                    EmbedResult::Indexed(SwapResult::Lease(LeaseOperationOutcome::Applied(()))),
                    now,
                    delay,
                    flight,
                    runtime,
                ),
                step,
            ) ==> {
                let retry = final(worker).publish_retry;
                &&& retry.owner == worker.publish_retry.owner
                &&& retry.budget == worker.publish_retry.budget
                &&& retry.deadline is None && retry.stopped is None && retry.streak == 0
                &&& flight.rerun_pending ==> {
                    &&& step matches WorkerStep::Again(wait) && wait is None
                    &&& final(worker).claim.armed && !final(worker).status.finished
                    &&& *final(flight) == *flight
                    &&& *final(runtime) == *runtime
                }
                &&& !flight.rerun_pending ==> {
                    &&& step is Exit
                    &&& !final(worker).claim.armed && final(worker).status.finished
                    &&& !final(flight).in_flight
                    &&& *final(runtime) is Ready
                }
            },
{
}

/// A pass that was refused for now is run again within the budget of its publication: after the
/// wait that was asked for, or what is left until the deadline, with the flight kept and the rerun
/// remembered. At the deadline, or where the window had stopped, the worker ends, saying that its
/// budget is exhausted.
pub proof fn a_refused_pass_runs_again_within_the_budget(
    result: EmbedResult,
    now: Moment,
    delay: Span,
    step: WorkerStep,
)
    requires
        result is TransientRefusal || (result matches EmbedResult::Indexed(
            SwapResult::Lease(outcome),
        ) && outcome is TransientRefusal),
    ensures
        forall|
            worker: &mut EmbedWorker,
            flight: &mut EmbedFlight,
            runtime: &mut SemanticRuntimeStatus,
        |
            worker.claim.armed && !worker.status.finished && flight.in_flight && #[trigger]
            call_ensures(
                EmbedWorker::end_pass,
                (worker, result, now, delay, flight, runtime),
                step,
            ) ==> {
                let window = worker.publish_retry;
                let deadline = match window.deadline {
                    Some(deadline) => deadline.nanos as int,
                    None => now.nanos + window.budget.nanos,
                };
                let ahead = window.stopped is None && now.nanos < deadline && (window.deadline
                    is Some || deadline <= 9_223_372_036_854_775_807_999_999_999);
                &&& ahead ==> {
                    &&& step matches WorkerStep::Again(Some(wait)) && wait.nanos == if delay.nanos
                        <= deadline - now.nanos {
                        delay.nanos as int
                    } else {
                        deadline - now.nanos
                    }
                    &&& final(worker).claim.armed && !final(worker).status.finished
                    &&& counts_a_refusal(window, deadline, final(worker).publish_retry)
                    &&& final(flight).in_flight && final(flight).rerun_pending
                    &&& *final(runtime) == *runtime
                }
                &&& !ahead ==> step is Exit && ended_saying(
                    *final(worker),
                    *flight,
                    *final(flight),
                    *final(runtime),
                    "embedding publication retry budget exhausted"@,
                )
            },
{
}

/// A write inside a pass is retried by the same budget: it waits as long as was asked for, or
/// until the deadline, and is given up at the deadline or once the window has stopped. Neither
/// touches anything else of the worker.
pub proof fn a_refused_write_is_retried_within_the_budget(
    now: Moment,
    delay: Span,
    wait: Option<Span>,
    again: bool,
)
    ensures
        forall|worker: &mut EmbedWorker| #[trigger]
            call_ensures(EmbedWorker::write_refused, (worker, now, delay), wait) ==> {
                let window = worker.publish_retry;
                let deadline = match window.deadline {
                    Some(deadline) => deadline.nanos as int,
                    None => now.nanos + window.budget.nanos,
                };
                let ahead = window.stopped is None && now.nanos < deadline && (window.deadline
                    is Some || deadline <= 9_223_372_036_854_775_807_999_999_999);
                &&& wait is Some <==> ahead
                &&& wait matches Some(wait) ==> wait.nanos == if delay.nanos <= deadline
                    - now.nanos {
                    delay.nanos as int
                } else {
                    deadline - now.nanos
                }
                &&& final(worker).claim == worker.claim
                &&& final(worker).status == worker.status
                &&& ahead ==> counts_a_refusal(window, deadline, final(worker).publish_retry)
                &&& window.stopped is Some ==> final(worker).publish_retry == window
                &&& window.stopped is None && !ahead ==> final(worker).publish_retry.stopped == Some(
                    RetryStop::Exhausted,
                )
            },
        forall|worker: &mut EmbedWorker| #[trigger]
            call_ensures(EmbedWorker::write_waited, (worker, now), again) ==> {
                let overdue = worker.publish_retry.deadline matches Some(deadline)
                    && deadline.nanos <= now.nanos;
                &&& again <==> !overdue
                &&& again ==> *final(worker) == *worker
                &&& final(worker).claim == worker.claim
                &&& final(worker).status == worker.status
                &&& !again ==> final(worker).publish_retry.stopped == Some(RetryStop::Exhausted)
                &&& final(worker).publish_retry.owner == worker.publish_retry.owner
                &&& final(worker).publish_retry.budget == worker.publish_retry.budget
                &&& final(worker).publish_retry.deadline == worker.publish_retry.deadline
                &&& final(worker).publish_retry.streak == worker.publish_retry.streak
            },
{
}

/// A worker that is gone leaves the flight free and its clients told, on whatever way: where its
/// thread could not be made they read why, and where it ended without a word they read that it did
/// not complete. What it has already given back or reported is not touched again.
pub proof fn a_worker_that_is_gone_leaves_nothing_open(error: &str)
    ensures
        forall|
            worker: &mut EmbedWorker,
            flight: &mut EmbedFlight,
            runtime: &mut SemanticRuntimeStatus,
        | #[trigger]
            call_ensures(EmbedWorker::spawn_failed, (worker, error, flight, runtime), ())
                ==> ended_saying(
                *final(worker),
                *flight,
                *final(flight),
                *final(runtime),
                "could not spawn embedding thread: "@ + error@,
            ),
        forall|
            worker: &mut EmbedWorker,
            flight: &mut EmbedFlight,
            runtime: &mut SemanticRuntimeStatus,
        | #[trigger]
            call_ensures(EmbedWorker::retire, (worker, flight, runtime), ()) ==> {
                &&& !final(worker).claim.armed && final(worker).status.finished
                &&& worker.claim.armed ==> !final(flight).in_flight && final(flight).rerun_pending
                    == flight.rerun_pending
                &&& !worker.claim.armed ==> *final(flight) == *flight
                &&& worker.status.finished ==> *final(runtime) == *runtime
                &&& !worker.status.finished ==> (*final(runtime) matches
                    SemanticRuntimeStatus::Failed(said) && said@
                    == "embedding pass ended without completing"@)
            },
{
}

} // verus!
