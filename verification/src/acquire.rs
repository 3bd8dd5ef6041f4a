//! Waiting for the lock of the search engine.

use crate::error::{breaks, internal_error, McpError, INTERNAL_ERROR};
use crate::retry_window::Span;
use vstd::prelude::*;

verus! {

/// How often a waiting request looks at the lock, in nanoseconds.
pub const ACQUIRE_POLL_NANOS: u128 = 25_000_000;

/// How long a request waits for the lock, in nanoseconds.
pub const MAX_WAIT_NANOS: u128 = 30_000_000_000;

/// Why the lock was not had.
#[derive(Debug, Clone, Copy, PartialEq, Eq, Structural)]
pub enum AcquireFailure {
    Cancelled,
    Poisoned,
    TimedOut,
}

/// What a try of the lock gave.
#[derive(Debug, Clone, Copy, PartialEq, Eq, Structural)]
pub enum LockAttempt {
    Taken,
    Poisoned,
    WouldBlock,
}

/// The next step of a waiting request.
#[derive(Debug, Clone, Copy, PartialEq, Eq, Structural)]
pub enum AcquireStep {
    /// Try the lock.
    TryLock(AwaitLock),
    /// Sleep, then ask again whether the request still stands.
    Sleep(AcquireWait, Span),
    /// The lock is held.
    Acquired,
    Failed(AcquireFailure),
}

/// A request that waits for the lock.
#[derive(Debug, Clone, Copy, PartialEq, Eq, Structural)]
pub struct AcquireWait {
    pub max_wait: Span,
    pub poll: Span,
}

/// A request that is about to try the lock.
#[derive(Debug, Clone, Copy, PartialEq, Eq, Structural)]
pub struct AwaitLock {
    pub wait: AcquireWait,
}

/// A request with the usual patience.
pub fn try_acquire_engine() -> (wait: AcquireWait)
    ensures
        wait.max_wait.nanos == MAX_WAIT_NANOS,
        wait.poll.nanos == ACQUIRE_POLL_NANOS,
{
    acquire_engine_within(Span { nanos: MAX_WAIT_NANOS }, Span { nanos: ACQUIRE_POLL_NANOS })
}

/// A request that waits `max_wait` at most and looks every `poll`.
pub fn acquire_engine_within(max_wait: Span, poll: Span) -> (wait: AcquireWait)
    ensures
        wait == (AcquireWait { max_wait, poll }),
{
    AcquireWait { max_wait, poll }
}

impl AcquireWait {
    pub open spec fn next(self, cancelled: bool) -> AcquireStep {
        if cancelled {
            AcquireStep::Failed(AcquireFailure::Cancelled)
        } else {
            AcquireStep::TryLock(AwaitLock { wait: self })
        }
    }

    /// A request that was cancelled does not touch the lock, free or not.
    pub fn look(self, cancelled: bool) -> (step: AcquireStep)
        ensures
            step == self.next(cancelled),
    {
        if cancelled {
            AcquireStep::Failed(AcquireFailure::Cancelled)
        } else {
            AcquireStep::TryLock(AwaitLock { wait: self })
        }
    }
}

impl AwaitLock {
    pub open spec fn next(self, attempt: LockAttempt, elapsed: Span) -> AcquireStep {
        match attempt {
            LockAttempt::Taken => AcquireStep::Acquired,
            LockAttempt::Poisoned => AcquireStep::Failed(AcquireFailure::Poisoned),
            LockAttempt::WouldBlock => if elapsed.nanos >= self.wait.max_wait.nanos {
                AcquireStep::Failed(AcquireFailure::TimedOut)
            } else {
                AcquireStep::Sleep(self.wait, self.wait.poll)
            },
        }
    }

    /// The lock was tried, `elapsed` after the request began.
    pub fn tried(self, attempt: LockAttempt, elapsed: Span) -> (step: AcquireStep)
        ensures
            step == self.next(attempt, elapsed),
    {
        match attempt {
            LockAttempt::Taken => AcquireStep::Acquired,
            LockAttempt::Poisoned => AcquireStep::Failed(AcquireFailure::Poisoned),
            LockAttempt::WouldBlock => if elapsed.nanos >= self.wait.max_wait.nanos {
                AcquireStep::Failed(AcquireFailure::TimedOut)
            } else {
                AcquireStep::Sleep(self.wait, self.wait.poll)
            },
        }
    }
}

/// The error that a poisoned lock is answered with.
pub open spec fn poisoned_text() -> Seq<char> {
    "search engine lock is poisoned (a prior operation panicked); restart the MCP server"@
}

/// The error that a poisoned lock is answered with.
pub fn engine_lock_poisoned_error() -> (error: McpError)
    ensures
        error.says(INTERNAL_ERROR, poisoned_text()),
{
    internal_error(
        "search engine lock is poisoned (a prior operation panicked); restart the MCP server".to_owned(),
    )
}

/// What a request meets at one look at the lock.
pub struct Look {
    pub cancelled: bool,
    pub attempt: LockAttempt,
    pub elapsed: Span,
}

/// The step that a look leads to.
pub open spec fn after_look(wait: AcquireWait, look: Look) -> AcquireStep {
    match wait.next(look.cancelled) {
        AcquireStep::TryLock(ask) => ask.next(look.attempt, look.elapsed),
        step => step,
    }
}

/// The step after the looks of a request, one after the other: it looks again where it sleeps,
/// and stays where it ended.
pub open spec fn after_looks(wait: AcquireWait, looks: Seq<Look>) -> AcquireStep
    decreases looks.len(),
{
    if looks.len() == 0 {
        AcquireStep::Sleep(wait, Span { nanos: 0 })
    } else {
        match after_looks(wait, looks.drop_last()) {
            AcquireStep::Sleep(still, _) => after_look(still, looks.last()),
            end => end,
        }
    }
}

/// How long the request has slept after its looks.
pub open spec fn slept(wait: AcquireWait, looks: Seq<Look>) -> nat
    decreases looks.len(),
{
    if looks.len() == 0 {
        0
    } else {
        slept(wait, looks.drop_last()) + match after_looks(wait, looks) {
            AcquireStep::Sleep(_, span) => span.nanos as nat,
            _ => 0,
        }
    }
}

/// The clock of the looks runs at least as long as the request sleeps.
pub open spec fn clock_counts_sleeps(wait: AcquireWait, looks: Seq<Look>) -> bool {
    forall|i: int|
        0 <= i < looks.len() ==> (#[trigger] looks[i]).elapsed.nanos >= slept(wait, looks.take(i))
}

/// A request that still waits has slept one poll at each of its looks.
proof fn lemma_a_waiting_request_sleeps_at_each_look(wait: AcquireWait, looks: Seq<Look>)
    requires
        after_looks(wait, looks) is Sleep,
    ensures
        after_looks(wait, looks)->Sleep_0 == wait,
        slept(wait, looks) == looks.len() * wait.poll.nanos,
    decreases looks.len(),
{
    if looks.len() > 0 {
        let before = looks.drop_last();
        lemma_a_waiting_request_sleeps_at_each_look(wait, before);
        assert(looks.len() * wait.poll.nanos == before.len() * wait.poll.nanos + wait.poll.nanos)
            by (nonlinear_arith)
            requires
                looks.len() == before.len() + 1,
        ;
    }
}

/// A request does not wait forever: by the look before which the sleeps fill its patience, it has
/// the lock, is cancelled, meets a poisoned lock or has timed out. It times out no sooner than
/// its patience is over.
pub proof fn a_wait_ends_once_its_patience_is_slept_through(wait: AcquireWait, looks: Seq<Look>)
    requires
        clock_counts_sleeps(wait, looks),
    ensures
        looks.len() > 0 && (looks.len() - 1) * wait.poll.nanos >= wait.max_wait.nanos ==> {
            ||| after_looks(wait, looks) is Acquired
            ||| after_looks(wait, looks) is Failed
        },
        after_looks(wait, looks) == AcquireStep::Failed(AcquireFailure::TimedOut) ==> exists|i: int|
            0 <= i < looks.len() && (#[trigger] looks[i]).elapsed.nanos >= wait.max_wait.nanos,
    decreases looks.len(),
{
    if looks.len() > 0 {
        let before = looks.drop_last();
        let last = looks.len() - 1;
        assert(looks.take(last) =~= before);
        assert(looks[last].elapsed.nanos >= slept(wait, looks.take(last)));
        assert forall|i: int| 0 <= i < before.len() implies (#[trigger] before[i]).elapsed.nanos
            >= slept(wait, before.take(i)) by {
            assert(before.take(i) =~= looks.take(i));
            assert(looks[i].elapsed.nanos >= slept(wait, looks.take(i)));
        }
        a_wait_ends_once_its_patience_is_slept_through(wait, before);
        if after_looks(wait, before) is Sleep {
            lemma_a_waiting_request_sleeps_at_each_look(wait, before);
        } else if after_looks(wait, looks) == AcquireStep::Failed(AcquireFailure::TimedOut) {
            let i = choose|i: int|
                0 <= i < before.len() && (#[trigger] before[i]).elapsed.nanos
                    >= wait.max_wait.nanos;
            assert(looks[i].elapsed.nanos >= wait.max_wait.nanos);
        } else {
            lemma_a_request_never_tries_twice(wait, before);
        }
    }
}

/// After a look a request sleeps, has the lock or has failed: the try belongs to the look.
proof fn lemma_a_request_never_tries_twice(wait: AcquireWait, looks: Seq<Look>)
    ensures
        !(after_looks(wait, looks) is TryLock),
    decreases looks.len(),
{
    if looks.len() > 0 {
        lemma_a_request_never_tries_twice(wait, looks.drop_last());
    }
}

/// A cancelled request is answered as such at its next look, whatever the lock is.
pub proof fn a_cancelled_request_never_takes_the_lock(wait: AcquireWait, look: Look)
    requires
        look.cancelled,
    ensures
        after_look(wait, look) == AcquireStep::Failed(AcquireFailure::Cancelled),
{
}

/// A request waits as long and looks as often as it was told, and by itself for half a minute,
/// forty times a second.
pub proof fn a_request_waits_as_it_was_told(
    max_wait: Span,
    poll: Span,
    told: AcquireWait,
    usual: AcquireWait,
)
    requires
        call_ensures(acquire_engine_within, (max_wait, poll), told),
        call_ensures(try_acquire_engine, (), usual),
    ensures
        told.max_wait == max_wait,
        told.poll == poll,
        usual.max_wait.nanos == 30_000_000_000,
        usual.poll.nanos == 25_000_000,
{
}

/// The lock is tried exactly where the request still stands, and with its own patience.
pub proof fn only_a_standing_request_tries_the_lock(
    wait: AcquireWait,
    cancelled: bool,
    step: AcquireStep,
)
    requires
        call_ensures(AcquireWait::look, (wait, cancelled), step),
    ensures
        step is TryLock <==> !cancelled,
        step matches AcquireStep::TryLock(ask) ==> ask.wait == wait,
        cancelled ==> step == AcquireStep::Failed(AcquireFailure::Cancelled),
{
}

/// A lock that was had is had, however late. A poisoned one fails at once, and one that is taken
/// is waited for, a poll at a time, until the patience is over and not before.
pub proof fn a_taken_lock_is_waited_for_until_the_patience_is_over(
    ask: AwaitLock,
    attempt: LockAttempt,
    elapsed: Span,
    step: AcquireStep,
)
    requires
        call_ensures(AwaitLock::tried, (ask, attempt, elapsed), step),
    ensures
        step is Acquired <==> attempt is Taken,
        attempt is Poisoned <==> step == AcquireStep::Failed(AcquireFailure::Poisoned),
        attempt is WouldBlock && elapsed.nanos >= ask.wait.max_wait.nanos <==> step
            == AcquireStep::Failed(AcquireFailure::TimedOut),
        step is Sleep <==> attempt is WouldBlock && elapsed.nanos < ask.wait.max_wait.nanos,
        step matches AcquireStep::Sleep(wait, span) ==> wait == ask.wait && span == ask.wait.poll,
{
}

/// A lock that is free when a standing request first looks at it is had, and one that is free at
/// any later look of a request that still waits is had then: a request that is not cancelled
/// never leaves a free lock.
pub proof fn a_free_lock_is_taken(wait: AcquireWait, looks: Seq<Look>)
    requires
        looks.len() > 0,
        after_looks(wait, looks.drop_last()) is Sleep,
        !looks.last().cancelled,
        looks.last().attempt is Taken,
    ensures
        after_looks(wait, looks) is Acquired,
{
}

/// A request has the lock, or has failed for the reason it met, exactly because of the look at
/// which it stopped waiting: it was cancelled, the lock was free, poisoned, or still taken once
/// the patience was over. Else it goes on waiting.
pub proof fn a_look_says_how_the_wait_goes_on(wait: AcquireWait, look: Look)
    ensures
        ({
            let step = after_look(wait, look);
            &&& look.cancelled <==> step == AcquireStep::Failed(AcquireFailure::Cancelled)
            &&& step is Acquired <==> !look.cancelled && look.attempt is Taken
            &&& step == AcquireStep::Failed(AcquireFailure::Poisoned) <==> !look.cancelled
                && look.attempt is Poisoned
            &&& step == AcquireStep::Failed(AcquireFailure::TimedOut) <==> !look.cancelled
                && look.attempt is WouldBlock && look.elapsed.nanos >= wait.max_wait.nanos
            &&& step == AcquireStep::Sleep(wait, wait.poll) <==> !look.cancelled && look.attempt
                is WouldBlock && look.elapsed.nanos < wait.max_wait.nanos
        }),
{
}

/// A poisoned lock is an error of the server that says what to do about it.
pub proof fn a_poisoned_lock_asks_for_a_restart(error: McpError)
    requires
        call_ensures(engine_lock_poisoned_error, (), error),
    ensures
        breaks(
            error,
            "search engine lock is poisoned (a prior operation panicked); restart the MCP server"@,
        ),
{
}

} // verus!
