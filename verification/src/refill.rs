//! Asking the baseline for more until the overlay leaves enough.
//!
//! Hits of the baseline that the overlay hides are dropped when the two are merged, so one
//! question may leave too few. The window of the question is doubled until the merge fills the
//! limit, the baseline has no more to give, or the largest window was asked for.

use crate::error::McpError;
use vstd::prelude::*;

verus! {

/// How a call of the baseline ended that did not answer.
#[derive(Debug, Clone, PartialEq, Eq)]
pub enum BaselineCall<E> {
    /// The request was cancelled while it waited.
    Withdrawn,
    Failed(E),
}

/// An error of the baseline: one that ends the search carries its answer.
#[derive(Debug, Clone, PartialEq, Eq)]
pub enum BaselineError {
    Terminal(McpError),
    Transient,
}

/// What a direct search of the baseline gave.
#[derive(Debug, Clone, PartialEq, Eq)]
pub enum DirectResult<H> {
    Found(Vec<H>),
    Terminal(McpError),
    Cancelled,
    Unavailable,
}

/// The result of a call of the baseline that failed.
pub open spec fn failed_call<H>(call: BaselineCall<BaselineError>) -> DirectResult<H> {
    match call {
        BaselineCall::Withdrawn => DirectResult::Cancelled,
        BaselineCall::Failed(BaselineError::Terminal(error)) => DirectResult::Terminal(error),
        BaselineCall::Failed(BaselineError::Transient) => DirectResult::Unavailable,
    }
}

/// The result of a call of the baseline that failed.
pub fn direct_failure<H>(call: BaselineCall<BaselineError>) -> (result: DirectResult<H>)
    ensures
        result == failed_call::<H>(call),
{
    match call {
        BaselineCall::Withdrawn => DirectResult::Cancelled,
        BaselineCall::Failed(BaselineError::Terminal(error)) => DirectResult::Terminal(error),
        BaselineCall::Failed(BaselineError::Transient) => DirectResult::Unavailable,
    }
}

/// The snapshot that a resolution names, or the result that ends the search.
pub fn resolved_snapshot<S, H>(
    resolution: Result<Option<S>, BaselineCall<BaselineError>>,
) -> (snapshot: Result<S, DirectResult<H>>)
    ensures
        snapshot == match resolution {
            Ok(Some(found)) => Ok::<S, DirectResult<H>>(found),
            Ok(None) => Err(DirectResult::Unavailable),
            Err(call) => Err(failed_call::<H>(call)),
        },
{
    match resolution {
        Ok(Some(found)) => Ok(found),
        Ok(None) => Err(DirectResult::Unavailable),
        Err(call) => Err(direct_failure(call)),
    }
}

/// A direct search without an overlay: the hits of the baseline as they are.
pub fn try_direct_lexical_code_no_overlay<H>(
    searched: Result<Vec<H>, BaselineCall<BaselineError>>,
) -> (result: DirectResult<H>)
    ensures
        result == match searched {
            Ok(hits) => DirectResult::Found(hits),
            Err(call) => failed_call::<H>(call),
        },
{
    match searched {
        Ok(hits) => DirectResult::Found(hits),
        Err(call) => direct_failure(call),
    }
}

/// The next step of a search of the baseline under the overlay.
#[derive(Debug, Clone, PartialEq, Eq)]
pub enum DirectStep<S, H> {
    /// Ask the overlay of the engine for its hits and for what it hides, then refill from this
    /// snapshot.
    QueryOverlay(S),
    Done(DirectResult<H>),
}

/// Starts a search of the baseline by words under the overlay.
pub fn try_direct_lexical_code<S, H>(
    resolution: Result<Option<S>, BaselineCall<BaselineError>>,
) -> (step: DirectStep<S, H>)
    ensures
        step == match resolution {
            Ok(Some(snapshot)) => DirectStep::<S, H>::QueryOverlay(snapshot),
            Ok(None) => DirectStep::Done(DirectResult::Unavailable),
            Err(call) => DirectStep::Done(failed_call::<H>(call)),
        },
{
    match resolved_snapshot(resolution) {
        Ok(snapshot) => DirectStep::QueryOverlay(snapshot),
        Err(result) => DirectStep::Done(result),
    }
}

/// The windows of a refill.
#[derive(Debug, Clone, Copy, PartialEq, Eq, Structural)]
pub struct RefillPlan {
    /// How many hits the caller wants.
    pub limit: usize,
    /// The first window.
    pub initial_window: usize,
    /// The largest window.
    pub max_window: usize,
    /// How many questions are asked at most.
    pub max_rounds: usize,
}

/// A question to the baseline: its window, and what the questions before it gave.
#[derive(Debug, Clone, Copy, PartialEq, Eq, Structural)]
pub struct AwaitBaseline {
    pub plan: RefillPlan,
    pub window: usize,
    pub previous_count: usize,
    pub rounds_left: usize,
}

/// The next step of a refill.
#[derive(Debug, Clone, PartialEq, Eq)]
pub enum RefillStep<H> {
    /// Ask whether the request still stands, then ask the baseline for the window.
    Fetch(AwaitBaseline),
    Done(DirectResult<H>),
}

/// What the baseline gave for a window: how many hits it returned, and what the merge with the
/// overlay leaves of them, best first.
#[derive(Debug, Clone, PartialEq, Eq)]
pub struct Merged<H> {
    pub baseline_count: usize,
    pub best: Vec<H>,
}

/// Starts a refill once the overlay was asked: without its answer the baseline cannot be
/// searched under it.
pub fn refill_under_overlay<H>(overlay_answered: bool, plan: RefillPlan) -> (step: RefillStep<H>)
    ensures
        !overlay_answered ==> step == RefillStep::<H>::Done(DirectResult::Unavailable),
        overlay_answered && plan.max_rounds > 0 ==> step == RefillStep::<H>::Fetch(
            AwaitBaseline {
                plan,
                window: plan.initial_window,
                previous_count: 0,
                rounds_left: plan.max_rounds,
            },
        ),
        overlay_answered && plan.max_rounds == 0 ==> (step matches RefillStep::Done(
            DirectResult::Found(hits),
        ) && hits@.len() == 0),
{
    if overlay_answered {
        merge_direct_with_refill(plan)
    } else {
        RefillStep::Done(DirectResult::Unavailable)
    }
}

/// Starts a refill.
pub fn merge_direct_with_refill<H>(plan: RefillPlan) -> (step: RefillStep<H>)
    ensures
        plan.max_rounds == 0 ==> (step matches RefillStep::Done(DirectResult::Found(hits))
            && hits@.len() == 0),
        plan.max_rounds > 0 ==> step == RefillStep::<H>::Fetch(
            AwaitBaseline {
                plan,
                window: plan.initial_window,
                previous_count: 0,
                rounds_left: plan.max_rounds,
            },
        ),
{
    if plan.max_rounds == 0 {
        RefillStep::Done(DirectResult::Found(Vec::new()))
    } else {
        RefillStep::Fetch(
            AwaitBaseline {
                plan,
                window: plan.initial_window,
                previous_count: 0,
                rounds_left: plan.max_rounds,
            },
        )
    }
}

/// The smaller of twice the window and the largest one.
pub open spec fn doubled(window: usize, max_window: usize) -> usize {
    if 2 * window <= max_window {
        (2 * window) as usize
    } else {
        max_window
    }
}

impl AwaitBaseline {
    /// The refill still asks within its plan.
    pub open spec fn wf(self) -> bool {
        0 < self.rounds_left <= self.plan.max_rounds
    }

    /// Nothing is gained by another question: the limit is filled, the baseline gave less than
    /// it was asked for or no more than before, the window is the largest or cannot grow, or
    /// no question is left.
    pub open spec fn settled_by(self, baseline_count: usize, best_len: nat) -> bool {
        ||| best_len >= self.plan.limit
        ||| baseline_count < self.window
        ||| baseline_count <= self.previous_count
        ||| self.window >= self.plan.max_window
        ||| doubled(self.window, self.plan.max_window) == self.window
        ||| self.rounds_left <= 1
    }

    /// The question after this one.
    pub open spec fn wider(self, baseline_count: usize) -> AwaitBaseline {
        AwaitBaseline {
            window: doubled(self.window, self.plan.max_window),
            previous_count: baseline_count,
            rounds_left: (self.rounds_left - 1) as usize,
            ..self
        }
    }

    /// The baseline was asked for `window`, unless the request was cancelled before.
    pub fn answer<H>(
        self,
        cancelled: bool,
        fetched: Result<Merged<H>, BaselineCall<BaselineError>>,
    ) -> (step: RefillStep<H>)
        requires
            self.wf(),
        ensures
            cancelled ==> step == RefillStep::<H>::Done(DirectResult::Cancelled),
            !cancelled ==> match fetched {
                Err(call) => step == RefillStep::Done(failed_call::<H>(call)),
                Ok(merged) => {
                    &&& self.settled_by(merged.baseline_count, merged.best@.len()) ==> step
                        == RefillStep::Done(DirectResult::Found(merged.best))
                    &&& !self.settled_by(merged.baseline_count, merged.best@.len()) ==> step
                        == RefillStep::<H>::Fetch(self.wider(merged.baseline_count))
                },
            },
            step matches RefillStep::Fetch(ask) ==> ask.wf(),
    {
        if cancelled {
            return RefillStep::Done(DirectResult::Cancelled);
        }
        let merged: Merged<H> = match fetched {
            Ok(merged) => merged,
            Err(call) => {
                return RefillStep::Done(direct_failure(call));
            },
        };
        let count: usize = merged.baseline_count;
        if merged.best.len() >= self.plan.limit || count < self.window || count
            <= self.previous_count || self.window >= self.plan.max_window {
            return RefillStep::Done(DirectResult::Found(merged.best));
        }
        let window: usize = if self.window <= self.plan.max_window / 2 {
            self.window * 2
        } else {
            self.plan.max_window
        };
        if window == self.window || self.rounds_left <= 1 {
            return RefillStep::Done(DirectResult::Found(merged.best));
        }
        RefillStep::Fetch(
            AwaitBaseline {
                plan: self.plan,
                window,
                previous_count: count,
                rounds_left: self.rounds_left - 1,
            },
        )
    }
}

/// The question that a run of answers leads to: each answer is a number of hits from the
/// baseline and what the merge leaves of them.
pub open spec fn after_answers(ask: AwaitBaseline, answers: Seq<(usize, nat)>) -> AwaitBaseline
    decreases answers.len(),
{
    if answers.len() == 0 {
        ask
    } else {
        after_answers(ask, answers.drop_last()).wider(answers.last().0)
    }
}

/// None of the answers settled the refill.
pub open spec fn all_ask_on(ask: AwaitBaseline, answers: Seq<(usize, nat)>) -> bool
    decreases answers.len(),
{
    answers.len() == 0 || {
        &&& all_ask_on(ask, answers.drop_last())
        &&& !after_answers(ask, answers.drop_last()).settled_by(answers.last().0, answers.last().1)
    }
}

/// Every question of a refill asks for more than the one before and never for more than the
/// largest window, and each answer uses up one of the questions that the plan allows.
pub proof fn windows_grow_within_the_plan(ask: AwaitBaseline, answers: Seq<(usize, nat)>)
    requires
        ask.wf(),
        all_ask_on(ask, answers),
    ensures
        after_answers(ask, answers).wf(),
        after_answers(ask, answers).plan == ask.plan,
        after_answers(ask, answers).rounds_left == ask.rounds_left - answers.len(),
        answers.len() < ask.plan.max_rounds,
        answers.len() > 0 ==> {
            &&& after_answers(ask, answers.drop_last()).window < after_answers(ask, answers).window
            &&& after_answers(ask, answers).window <= ask.plan.max_window
        },
    decreases answers.len(),
{
    if answers.len() > 0 {
        windows_grow_within_the_plan(ask, answers.drop_last());
    }
}

/// A call of the baseline that did not answer ends the search as what it was: withdrawn, failed
/// for good with its own error, or not to be had for now.
pub proof fn a_failed_call_ends_as_what_it_was<H>(
    call: BaselineCall<BaselineError>,
    result: DirectResult<H>,
)
    requires
        call_ensures(direct_failure::<H>, (call,), result),
    ensures
        result is Cancelled <==> call is Withdrawn,
        call matches BaselineCall::Failed(BaselineError::Terminal(error)) ==> (result
            matches DirectResult::Terminal(given) && given == error),
        call matches BaselineCall::Failed(BaselineError::Transient) ==> result is Unavailable,
{
}

/// A search of the baseline goes on exactly from the snapshot that was resolved. Without one it
/// ends: withdrawn, with the error of a failure for good, or else without an answer.
pub proof fn a_search_goes_on_from_the_resolved_snapshot<S, H>(
    resolution: Result<Option<S>, BaselineCall<BaselineError>>,
    snapshot: Result<S, DirectResult<H>>,
    step: DirectStep<S, H>,
)
    requires
        call_ensures(resolved_snapshot::<S, H>, (resolution,), snapshot),
        call_ensures(try_direct_lexical_code::<S, H>, (resolution,), step),
    ensures
        resolution matches Ok(Some(found)) ==> (snapshot matches Ok(given) && given == found) && (
        step matches DirectStep::QueryOverlay(given) && given == found),
        !(resolution matches Ok(Some(_))) ==> snapshot is Err && step is Done,
        resolution matches Ok(None) ==> (snapshot matches Err(end) && end is Unavailable) && (step
            matches DirectStep::Done(end) && end is Unavailable),
        resolution matches Err(BaselineCall::Withdrawn) ==> (snapshot matches Err(end) && end
            is Cancelled) && (step matches DirectStep::Done(end) && end is Cancelled),
        resolution matches Err(BaselineCall::Failed(BaselineError::Transient)) ==> (snapshot
            matches Err(end) && end is Unavailable) && (step matches DirectStep::Done(end) && end
            is Unavailable),
        resolution matches Err(BaselineCall::Failed(BaselineError::Terminal(error))) ==> (snapshot
            matches Err(DirectResult::Terminal(given)) && given == error) && (step
            matches DirectStep::Done(DirectResult::Terminal(given)) && given == error),
{
}

/// Without an overlay the hits of the baseline are given as they are, none of them too.
pub proof fn without_an_overlay_the_hits_are_the_baselines<H>(
    searched: Result<Vec<H>, BaselineCall<BaselineError>>,
    result: DirectResult<H>,
)
    requires
        call_ensures(try_direct_lexical_code_no_overlay::<H>, (searched,), result),
    ensures
        searched matches Ok(hits) ==> (result matches DirectResult::Found(given) && given == hits),
        searched matches Err(BaselineCall::Withdrawn) ==> result is Cancelled,
        searched matches Err(BaselineCall::Failed(BaselineError::Transient)) ==> result
            is Unavailable,
        searched matches Err(BaselineCall::Failed(BaselineError::Terminal(error))) ==> (result
            matches DirectResult::Terminal(given) && given == error),
{
}

/// A refill asks for its first window with all its questions ahead and nothing found yet. It asks
/// nothing where no question is allowed, and gives no answer where the overlay gave none.
pub proof fn a_refill_begins_with_its_first_window<H>(
    overlay_answered: bool,
    plan: RefillPlan,
    step: RefillStep<H>,
    merge: RefillStep<H>,
)
    requires
        call_ensures(refill_under_overlay::<H>, (overlay_answered, plan), step),
        call_ensures(merge_direct_with_refill::<H>, (plan,), merge),
    ensures
        step is Fetch <==> overlay_answered && plan.max_rounds > 0,
        step matches RefillStep::Fetch(ask) ==> ask.plan == plan && ask.window
            == plan.initial_window && ask.previous_count == 0 && ask.rounds_left == plan.max_rounds,
        !overlay_answered ==> (step matches RefillStep::Done(end) && end is Unavailable),
        overlay_answered && plan.max_rounds == 0 ==> (step matches RefillStep::Done(
            DirectResult::Found(hits),
        ) && hits@.len() == 0),
        merge is Fetch <==> plan.max_rounds > 0,
        merge matches RefillStep::Fetch(ask) ==> ask.plan == plan && ask.window
            == plan.initial_window && ask.previous_count == 0 && ask.rounds_left == plan.max_rounds,
        plan.max_rounds == 0 ==> (merge matches RefillStep::Done(DirectResult::Found(hits))
            && hits@.len() == 0),
{
}

/// The baseline is asked again exactly where that can bring more: too little is left for the
/// limit, the baseline gave all that it was asked for and more than before, a larger window is
/// allowed, and a question is left. It is then asked for twice the window, or for the largest. Else
/// the refill gives what the last merge left, too little or not.
pub proof fn the_baseline_is_asked_again_where_that_can_bring_more<H>(
    ask: AwaitBaseline,
    cancelled: bool,
    fetched: Result<Merged<H>, BaselineCall<BaselineError>>,
    step: RefillStep<H>,
)
    requires
        0 < ask.rounds_left <= ask.plan.max_rounds,
        call_ensures(AwaitBaseline::answer::<H>, (ask, cancelled, fetched), step),
    ensures
        cancelled ==> (step matches RefillStep::Done(end) && end is Cancelled),
        step is Fetch <==> !cancelled && (fetched matches Ok(merged) && {
            &&& merged.best@.len() < ask.plan.limit
            &&& merged.baseline_count >= ask.window
            &&& merged.baseline_count > ask.previous_count
            &&& 0 < ask.window < ask.plan.max_window
            &&& ask.rounds_left >= 2
        }),
        step matches RefillStep::Fetch(next) ==> {
            &&& next.plan == ask.plan
            &&& next.window == if 2 * ask.window < ask.plan.max_window {
                2 * ask.window
            } else {
                ask.plan.max_window as int
            }
            &&& next.previous_count == fetched->Ok_0.baseline_count
            &&& next.rounds_left == ask.rounds_left - 1
        },
        !cancelled && fetched is Ok && !(step is Fetch) ==> (step matches RefillStep::Done(
            DirectResult::Found(hits),
        ) && hits == fetched->Ok_0.best),
        !cancelled && (fetched matches Err(BaselineCall::Withdrawn)) ==> (step
            matches RefillStep::Done(end) && end is Cancelled),
        !cancelled && (fetched matches Err(BaselineCall::Failed(BaselineError::Transient))) ==> (
        step matches RefillStep::Done(end) && end is Unavailable),
        !cancelled ==> (fetched matches Err(BaselineCall::Failed(BaselineError::Terminal(error)))
            ==> (step matches RefillStep::Done(DirectResult::Terminal(given)) && given == error)),
{
}

} // verus!
