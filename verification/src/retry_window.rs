//! Bounded retry of a refused publication.
//!
//! An obligation that is refused is retried until its deadline. The deadline is set by the
//! first refusal and never moves; a window that stopped stays stopped until the obligation
//! completes or fresh work from outside starts a new one.

use vstd::prelude::*;

verus! {

/// The last instant of a clock that counts signed 64-bit seconds, in nanoseconds.
pub const CLOCK_LIMIT_NANOS: u128 = 9_223_372_036_854_775_807_999_999_999;

/// How long an obligation is retried where nothing else is configured: ten minutes, in
/// nanoseconds.
pub const DEFAULT_RETRY_BUDGET_NANOS: u128 = 600_000_000_000;

/// A length of time in nanoseconds.
#[derive(Debug, Clone, Copy, PartialEq, Eq, Structural)]
pub struct Span {
    pub nanos: u128,
}

/// A reading of the monotonic clock: nanoseconds since its origin.
#[derive(Debug, Clone, Copy, PartialEq, Eq, Structural)]
pub struct Moment {
    pub nanos: u128,
}

impl Moment {
    /// The reading after `span`, where the clock can express it.
    pub open spec fn after(self, span: Span) -> Option<Moment> {
        if self.nanos + span.nanos <= CLOCK_LIMIT_NANOS {
            Some(Moment { nanos: (self.nanos + span.nanos) as u128 })
        } else {
            None
        }
    }

    /// The reading after `span`, where the clock can express it.
    pub fn checked_add(self, span: Span) -> (sum: Option<Moment>)
        ensures
            sum == self.after(span),
    {
        match self.nanos.checked_add(span.nanos) {
            Some(nanos) => if nanos <= CLOCK_LIMIT_NANOS {
                Some(Moment { nanos })
            } else {
                None
            },
            None => None,
        }
    }
}

/// Who owes the publication.
#[derive(Debug, Clone, Copy, PartialEq, Eq, Structural)]
pub enum RetryOwner {
    Startup,
    ChangeHub,
    Drift,
    OverlayEmbedding,
    Graph,
}

impl RetryOwner {
    /// Only the startup obligation is never started again.
    pub open spec fn rearms(self) -> bool {
        self != RetryOwner::Startup
    }

    /// Whether fresh work may start the obligation again.
    pub fn may_rearm_on_fresh_work(self) -> (may: bool)
        ensures
            may == self.rearms(),
    {
        match self {
            RetryOwner::Startup => false,
            _ => true,
        }
    }
}

/// Why a window stopped.
#[derive(Debug, Clone, Copy, PartialEq, Eq, Structural)]
pub enum RetryStop {
    Exhausted,
    OperationError,
    Terminal,
}

/// What a refusal is answered with.
#[derive(Debug, Clone, Copy, PartialEq, Eq, Structural)]
pub enum RetryDecision {
    RetryAfter(Span),
    Stop(RetryStop),
}

/// The retry state of one obligation.
#[derive(Debug, Clone, Copy, PartialEq, Eq, Structural)]
pub struct RetryWindow {
    pub owner: RetryOwner,
    pub budget: Span,
    pub deadline: Option<Moment>,
    pub streak: u32,
    pub stopped: Option<RetryStop>,
}

/// The shorter of two lengths of time.
pub open spec fn shorter(a: Span, b: Span) -> Span {
    if b.nanos < a.nanos {
        b
    } else {
        a
    }
}

impl RetryWindow {
    /// A window that owes nothing yet.
    pub open spec fn fresh(owner: RetryOwner, budget: Span) -> RetryWindow {
        RetryWindow { owner, budget, deadline: None, streak: 0, stopped: None }
    }

    /// The deadline that a refusal at `now` is held to.
    pub open spec fn deadline_at(self, now: Moment) -> Option<Moment> {
        match self.deadline {
            Some(deadline) => Some(deadline),
            None => now.after(self.budget),
        }
    }

    /// The window stopped for `reason`.
    pub open spec fn stopped_for(self, reason: RetryStop) -> RetryWindow {
        RetryWindow { stopped: Some(reason), ..self }
    }

    /// The window with no obligation left.
    pub open spec fn cleared(self) -> RetryWindow {
        RetryWindow::fresh(self.owner, self.budget)
    }

    /// The window after a refusal at `now`, and the answer to it.
    pub open spec fn after_refusal(self, now: Moment, delay: Span) -> (RetryWindow, RetryDecision) {
        match (self.stopped, self.deadline_at(now)) {
            (Some(reason), _) => (self, RetryDecision::Stop(reason)),
            (None, None) => (
                self.stopped_for(RetryStop::Exhausted),
                RetryDecision::Stop(RetryStop::Exhausted),
            ),
            (None, Some(deadline)) => {
                let held = RetryWindow { deadline: Some(deadline), ..self };
                if now.nanos >= deadline.nanos {
                    (
                        held.stopped_for(RetryStop::Exhausted),
                        RetryDecision::Stop(RetryStop::Exhausted),
                    )
                } else {
                    let remaining = Span { nanos: (deadline.nanos - now.nanos) as u128 };
                    let streak = if self.streak == u32::MAX {
                        self.streak
                    } else {
                        (self.streak + 1) as u32
                    };
                    (
                        RetryWindow { streak, ..held },
                        RetryDecision::RetryAfter(shorter(delay, remaining)),
                    )
                }
            },
        }
    }

    /// `now` is at or past the deadline.
    pub open spec fn overdue(self, now: Moment) -> bool {
        self.deadline is Some && now.nanos >= self.deadline->Some_0.nanos
    }

    /// Fresh work starts the obligation again.
    pub open spec fn rearmed_by(self, genuinely_fresh: bool) -> bool {
        &&& genuinely_fresh
        &&& self.stopped == Some(RetryStop::Exhausted) || self.stopped == Some(
            RetryStop::OperationError,
        )
        &&& self.owner.rearms()
    }

    pub fn new(owner: RetryOwner) -> (window: Self)
        ensures
            window == RetryWindow::fresh(owner, (Span { nanos: DEFAULT_RETRY_BUDGET_NANOS })),
    {
        Self::with_budget(owner, Span { nanos: DEFAULT_RETRY_BUDGET_NANOS })
    }

    pub fn with_budget(owner: RetryOwner, budget: Span) -> (window: Self)
        ensures
            window == RetryWindow::fresh(owner, budget),
    {
        RetryWindow { owner, budget, deadline: None, streak: 0, stopped: None }
    }

    pub fn streak(&self) -> (streak: u32)
        ensures
            streak == self.streak,
    {
        self.streak
    }

    /// Answers a refusal at `now`, for a caller that would wait `delay`.
    pub fn refused(&mut self, now: Moment, delay: Span) -> (decision: RetryDecision)
        ensures
            (*final(self), decision) == old(self).after_refusal(now, delay),
    {
        if let Some(reason) = self.stopped {
            return RetryDecision::Stop(reason);
        }
        let deadline: Moment = match self.deadline {
            Some(deadline) => deadline,
            None => match now.checked_add(self.budget) {
                Some(deadline) => {
                    self.deadline = Some(deadline);
                    deadline
                },
                None => {
                    return self.stop(RetryStop::Exhausted);
                },
            },
        };
        if now.nanos >= deadline.nanos {
            return self.stop(RetryStop::Exhausted);
        }
        let remaining: Span = Span { nanos: deadline.nanos - now.nanos };
        self.streak = self.streak.saturating_add(1);
        if remaining.nanos < delay.nanos {
            RetryDecision::RetryAfter(remaining)
        } else {
            RetryDecision::RetryAfter(delay)
        }
    }

    /// Whether the deadline has come; the window then stops as exhausted.
    pub fn expired(&mut self, now: Moment) -> (expired: bool)
        ensures
            expired == old(self).overdue(now),
            *final(self) == if expired {
                old(self).stopped_for(RetryStop::Exhausted)
            } else {
                *old(self)
            },
    {
        if let Some(deadline) = self.deadline {
            if now.nanos >= deadline.nanos {
                self.stop(RetryStop::Exhausted);
                return true;
            }
        }
        false
    }

    /// The obligation is met.
    pub fn complete(&mut self)
        ensures
            *final(self) == old(self).cleared(),
    {
        self.deadline = None;
        self.streak = 0;
        self.stopped = None;
    }

    /// Returns true only when fresh external work starts a new obligation.
    pub fn observe_external_work(&mut self, genuinely_fresh: bool) -> (rearmed: bool)
        ensures
            rearmed == old(self).rearmed_by(genuinely_fresh),
            *final(self) == if rearmed {
                old(self).cleared()
            } else {
                *old(self)
            },
    {
        let eligible: bool = match self.stopped {
            Some(RetryStop::Exhausted) => true,
            Some(RetryStop::OperationError) => true,
            _ => false,
        };
        if genuinely_fresh && eligible && self.owner.may_rearm_on_fresh_work() {
            self.complete();
            return true;
        }
        false
    }

    /// The operation itself failed.
    pub fn operation_error(&mut self) -> (decision: RetryDecision)
        ensures
            *final(self) == old(self).stopped_for(RetryStop::OperationError),
            decision == RetryDecision::Stop(RetryStop::OperationError),
    {
        self.stop(RetryStop::OperationError)
    }

    /// The obligation can never be met.
    pub fn terminal(&mut self) -> (decision: RetryDecision)
        ensures
            *final(self) == old(self).stopped_for(RetryStop::Terminal),
            decision == RetryDecision::Stop(RetryStop::Terminal),
    {
        self.stop(RetryStop::Terminal)
    }

    /// Stops the window.
    pub fn stop(&mut self, reason: RetryStop) -> (decision: RetryDecision)
        ensures
            *final(self) == old(self).stopped_for(reason),
            decision == RetryDecision::Stop(reason),
    {
        self.stopped = Some(reason);
        RetryDecision::Stop(reason)
    }
}

/// The window after refusals at `nows`, in order, each with the delay asked for.
pub open spec fn after_refusals(
    window: RetryWindow,
    nows: Seq<Moment>,
    delays: Seq<Span>,
) -> RetryWindow
    decreases nows.len(),
{
    if nows.len() == 0 {
        window
    } else {
        after_refusals(window, nows.drop_last(), delays.drop_last()).after_refusal(
            nows.last(),
            delays.last(),
        ).0
    }
}

/// However often an obligation is refused, every wait that is granted ends by the deadline
/// that the first refusal set: the first reading plus the budget.
pub proof fn every_wait_ends_within_the_budget(
    owner: RetryOwner,
    budget: Span,
    nows: Seq<Moment>,
    delays: Seq<Span>,
    now: Moment,
    delay: Span,
)
    requires
        nows.len() == delays.len(),
    ensures
        after_refusals(RetryWindow::fresh(owner, budget), nows, delays).after_refusal(
            now,
            delay,
        ).1 matches RetryDecision::RetryAfter(wait) ==> {
            let first = if nows.len() == 0 {
                now
            } else {
                nows[0]
            };
            &&& now.nanos < first.nanos + budget.nanos
            &&& now.nanos + wait.nanos <= first.nanos + budget.nanos
            &&& wait.nanos <= delay.nanos
        },
{
    lemma_deadline_is_set_by_the_first_refusal(owner, budget, nows, delays);
}

proof fn lemma_deadline_is_set_by_the_first_refusal(
    owner: RetryOwner,
    budget: Span,
    nows: Seq<Moment>,
    delays: Seq<Span>,
)
    requires
        nows.len() == delays.len(),
    ensures
        ({
            let window = after_refusals(RetryWindow::fresh(owner, budget), nows, delays);
            &&& window.owner == owner
            &&& window.budget == budget
            &&& nows.len() == 0 ==> window == RetryWindow::fresh(owner, budget)
            &&& nows.len() > 0 ==> window.deadline == nows[0].after(budget) && (
            nows[0].after(budget) is None ==> window.stopped is Some)
        }),
    decreases nows.len(),
{
    if nows.len() > 0 {
        lemma_deadline_is_set_by_the_first_refusal(
            owner,
            budget,
            nows.drop_last(),
            delays.drop_last(),
        );
        if nows.len() > 1 {
            assert(nows.drop_last()[0] == nows[0]);
        }
    }
}

/// A window that stopped answers every later refusal with the same reason and does not change.
pub proof fn a_stopped_window_stays_stopped(
    window: RetryWindow,
    reason: RetryStop,
    nows: Seq<Moment>,
    delays: Seq<Span>,
    now: Moment,
    delay: Span,
)
    requires
        window.stopped == Some(reason),
        nows.len() == delays.len(),
    ensures
        after_refusals(window, nows, delays) == window,
        after_refusals(window, nows, delays).after_refusal(now, delay).1 == RetryDecision::Stop(
            reason,
        ),
    decreases nows.len(),
{
    if nows.len() > 0 {
        a_stopped_window_stays_stopped(
            window,
            reason,
            nows.drop_last(),
            delays.drop_last(),
            now,
            delay,
        );
    }
}

/// Work that arrives while the obligation is still being retried joins it: the deadline and
/// the streak stay as they are.
pub proof fn work_during_a_retry_coalesces(window: RetryWindow, genuinely_fresh: bool)
    requires
        window.stopped is None,
    ensures
        !window.rearmed_by(genuinely_fresh),
{
}

/// After fresh work starts the obligation again, nothing fresher is owed: a second look
/// changes nothing.
pub proof fn rearming_happens_once(window: RetryWindow, genuinely_fresh: bool)
    ensures
        !window.cleared().rearmed_by(genuinely_fresh),
{
}

proof fn lemma_a_window_runs_until_a_refusal_reaches_the_deadline(
    owner: RetryOwner,
    budget: Span,
    nows: Seq<Moment>,
    delays: Seq<Span>,
)
    requires
        nows.len() == delays.len(),
        nows.len() > 0,
    ensures
        ({
            let window = after_refusals(RetryWindow::fresh(owner, budget), nows, delays);
            let deadline = nows[0].nanos + budget.nanos;
            let runs = deadline <= 9_223_372_036_854_775_807_999_999_999 && forall|i: int|
                0 <= i < nows.len() ==> (#[trigger] nows[i]).nanos < deadline;
            &&& window.stopped is None <==> runs
            &&& window.stopped is Some ==> window.stopped == Some(RetryStop::Exhausted)
            &&& runs ==> window.streak == if nows.len() < u32::MAX {
                nows.len() as int
            } else {
                u32::MAX as int
            }
        }),
    decreases nows.len(),
{
    let earlier = nows.drop_last();
    lemma_deadline_is_set_by_the_first_refusal(owner, budget, earlier, delays.drop_last());
    if nows.len() > 1 {
        lemma_a_window_runs_until_a_refusal_reaches_the_deadline(
            owner,
            budget,
            earlier,
            delays.drop_last(),
        );
        assert(forall|i: int| 0 <= i < earlier.len() ==> #[trigger] earlier[i] == nows[i]);
        let deadline = nows[0].nanos + budget.nanos;
        if forall|i: int| 0 <= i < earlier.len() ==> (#[trigger] earlier[i]).nanos < deadline {
            assert forall|i: int| 0 <= i < nows.len() - 1 implies (#[trigger] nows[i]).nanos
                < deadline by {
                assert(earlier[i] == nows[i]);
            }
        } else {
            let late = choose|i: int|
                0 <= i < earlier.len() && (#[trigger] earlier[i]).nanos >= deadline;
            assert(nows[late].nanos >= deadline);
        }
    } else {
        assert(after_refusals(RetryWindow::fresh(owner, budget), earlier, delays.drop_last())
            == RetryWindow::fresh(owner, budget));
    }
}

/// An obligation is retried for its whole budget, however often it was refused before: as long as
/// every refusal came before the first one plus the budget, the next one that does too is
/// answered with the wait that was asked for, cut where the budget ends. It is given up, and then
/// as exhausted, only where a refusal comes once the budget is over or where the clock cannot
/// express its end.
pub proof fn an_obligation_is_retried_for_its_whole_budget(
    owner: RetryOwner,
    budget: Span,
    nows: Seq<Moment>,
    delays: Seq<Span>,
    now: Moment,
    delay: Span,
)
    requires
        nows.len() == delays.len(),
    ensures
        ({
            let answer = after_refusals(
                RetryWindow::fresh(owner, budget),
                nows,
                delays,
            ).after_refusal(now, delay).1;
            let first = if nows.len() == 0 {
                now
            } else {
                nows[0]
            };
            let deadline = first.nanos + budget.nanos;
            let in_time = deadline <= 9_223_372_036_854_775_807_999_999_999 && now.nanos < deadline
                && forall|i: int| 0 <= i < nows.len() ==> (#[trigger] nows[i]).nanos < deadline;
            &&& in_time ==> (answer matches RetryDecision::RetryAfter(wait) && wait.nanos == if delay.nanos
                <= deadline - now.nanos {
                delay.nanos as int
            } else {
                deadline - now.nanos
            })
            &&& !in_time ==> answer == RetryDecision::Stop(RetryStop::Exhausted)
        }),
{
    lemma_deadline_is_set_by_the_first_refusal(owner, budget, nows, delays);
    if nows.len() > 0 {
        lemma_a_window_runs_until_a_refusal_reaches_the_deadline(owner, budget, nows, delays);
    }
}

/// A refusal is answered by the clock alone. A window that runs, and whose deadline is ahead,
/// grants the wait that was asked for or what is left until the deadline, whichever is less,
/// counts the refusal and keeps everything else; the first refusal sets the deadline. It stops, as
/// exhausted, only at the deadline or where the clock cannot express one. A window that stopped
/// repeats its reason and stays as it is.
pub proof fn a_refusal_is_answered_by_the_clock(now: Moment, delay: Span, decision: RetryDecision)
    ensures
        forall|window: &mut RetryWindow| #[trigger]
            call_ensures(RetryWindow::refused, (window, now, delay), decision) ==> {
                let deadline = match window.deadline {
                    Some(deadline) => deadline.nanos as int,
                    None => now.nanos + window.budget.nanos,
                };
                let ahead = now.nanos < deadline && (window.deadline is Some || deadline
                    <= 9_223_372_036_854_775_807_999_999_999);
                let after = *final(window);
                &&& after.owner == window.owner
                &&& after.budget == window.budget
                &&& window.stopped matches Some(reason) ==> decision == RetryDecision::Stop(reason)
                    && after == *window
                &&& window.stopped is None && ahead ==> {
                    &&& decision matches RetryDecision::RetryAfter(wait) && wait.nanos == if delay.nanos
                        <= deadline - now.nanos {
                        delay.nanos as int
                    } else {
                        deadline - now.nanos
                    }
                    &&& after.stopped is None
                    &&& after.deadline matches Some(held) && held.nanos == deadline
                    &&& after.streak == if window.streak < u32::MAX {
                        window.streak + 1
                    } else {
                        u32::MAX as int
                    }
                }
                &&& window.stopped is None && !ahead ==> {
                    &&& decision == RetryDecision::Stop(RetryStop::Exhausted)
                    &&& after.stopped == Some(RetryStop::Exhausted)
                    &&& after.streak == window.streak
                    &&& window.deadline is Some ==> after.deadline == window.deadline
                    &&& window.deadline is None ==> {
                        &&& after.deadline is Some <==> deadline
                            <= 9_223_372_036_854_775_807_999_999_999
                        &&& after.deadline matches Some(held) ==> held.nanos == deadline
                    }
                }
            },
{
}

/// A window has expired exactly where it has a deadline and the clock has reached it. It is then
/// stopped as exhausted, and nothing else of it changes; before that nothing changes at all.
pub proof fn a_window_expires_at_its_deadline(now: Moment, expired: bool)
    ensures
        forall|window: &mut RetryWindow| #[trigger]
            call_ensures(RetryWindow::expired, (window, now), expired) ==> {
                let after = *final(window);
                &&& expired <==> (window.deadline matches Some(deadline) && deadline.nanos
                    <= now.nanos)
                &&& !expired ==> after == *window
                &&& expired ==> after.stopped == Some(RetryStop::Exhausted)
                &&& after.owner == window.owner
                &&& after.budget == window.budget
                &&& after.deadline == window.deadline
                &&& after.streak == window.streak
            },
{
}

/// An obligation that is met leaves nothing behind but its owner and its budget.
pub proof fn a_met_obligation_leaves_a_new_window()
    ensures
        forall|window: &mut RetryWindow| #[trigger]
            call_ensures(RetryWindow::complete, (window,), ()) ==> {
                let after = *final(window);
                &&& after.owner == window.owner
                &&& after.budget == window.budget
                &&& after.deadline is None
                &&& after.streak == 0
                &&& after.stopped is None
            },
{
}

/// Fresh work starts an obligation again exactly where the work is fresh, the window was exhausted
/// or its operation failed, and it is not the one of the startup. It then starts from nothing, and
/// else it is untouched: a terminal stop is never taken back.
pub proof fn only_fresh_work_starts_an_obligation_again(fresh: bool, rearmed: bool)
    ensures
        forall|window: &mut RetryWindow| #[trigger]
            call_ensures(RetryWindow::observe_external_work, (window, fresh), rearmed) ==> {
                let after = *final(window);
                &&& rearmed <==> fresh && !(window.owner is Startup) && (window.stopped == Some(
                    RetryStop::Exhausted,
                ) || window.stopped == Some(RetryStop::OperationError))
                &&& !rearmed ==> after == *window
                &&& rearmed ==> after.deadline is None && after.streak == 0 && after.stopped is None
                &&& after.owner == window.owner
                &&& after.budget == window.budget
            },
{
}

/// A window stops for the reason that it is given, says so, and keeps the rest of its state.
pub proof fn a_window_stops_for_the_reason_given(reason: RetryStop, decision: RetryDecision)
    ensures
        forall|window: &mut RetryWindow| #[trigger]
            call_ensures(RetryWindow::stop, (window, reason), decision) ==> {
                let after = *final(window);
                &&& decision == RetryDecision::Stop(reason)
                &&& after.stopped == Some(reason)
                &&& after.owner == window.owner && after.budget == window.budget
                &&& after.deadline == window.deadline && after.streak == window.streak
            },
        forall|window: &mut RetryWindow| #[trigger]
            call_ensures(RetryWindow::operation_error, (window,), decision) ==> {
                let after = *final(window);
                &&& decision == RetryDecision::Stop(RetryStop::OperationError)
                &&& after.stopped == Some(RetryStop::OperationError)
                &&& after.owner == window.owner && after.budget == window.budget
                &&& after.deadline == window.deadline && after.streak == window.streak
            },
        forall|window: &mut RetryWindow| #[trigger]
            call_ensures(RetryWindow::terminal, (window,), decision) ==> {
                let after = *final(window);
                &&& decision == RetryDecision::Stop(RetryStop::Terminal)
                &&& after.stopped == Some(RetryStop::Terminal)
                &&& after.owner == window.owner && after.budget == window.budget
                &&& after.deadline == window.deadline && after.streak == window.streak
            },
{
}

/// A new window has its owner and its budget, ten minutes where none is given, and owes nothing.
pub proof fn a_new_window_owes_nothing(
    owner: RetryOwner,
    budget: Span,
    plain: RetryWindow,
    bounded: RetryWindow,
)
    requires
        call_ensures(RetryWindow::new, (owner,), plain),
        call_ensures(RetryWindow::with_budget, (owner, budget), bounded),
    ensures
        plain.budget.nanos == 600_000_000_000,
        bounded.budget == budget,
        plain.owner == owner && bounded.owner == owner,
        plain.deadline is None && bounded.deadline is None,
        plain.stopped is None && bounded.stopped is None,
        plain.streak == 0 && bounded.streak == 0,
{
}

/// A window tells how many refusals it has counted.
pub proof fn the_streak_is_what_was_counted(window: RetryWindow, streak: u32)
    requires
        call_ensures(RetryWindow::streak, (&window,), streak),
    ensures
        streak == window.streak,
{
}

/// The clock adds up, and says so where it cannot express the sum.
pub proof fn the_clock_adds_up(moment: Moment, span: Span, sum: Option<Moment>)
    requires
        call_ensures(Moment::checked_add, (moment, span), sum),
    ensures
        sum is Some <==> moment.nanos + span.nanos <= 9_223_372_036_854_775_807_999_999_999,
        sum matches Some(reached) ==> reached.nanos == moment.nanos + span.nanos,
{
}

/// Every obligation but the one of the startup may be started again.
pub proof fn the_startup_is_not_started_again(owner: RetryOwner, may: bool)
    requires
        call_ensures(RetryOwner::may_rearm_on_fresh_work, (owner,), may),
    ensures
        may <==> owner is ChangeHub || owner is Drift || owner is OverlayEmbedding || owner
            is Graph,
{
}

} // verus!
