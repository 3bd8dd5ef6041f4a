//! Warming the semantic overlay of the local edits.
//!
//! The driver asks its host one question at a time and records what a client may read of it:
//! the state of the overlay.

use crate::apply::{FenceOutcome, WorkspaceSearchApply};
use vstd::prelude::*;

verus! {

/// What a client reads of the overlay.
#[derive(Debug, Clone, PartialEq, Eq)]
pub enum OverlayWarmupState {
    Pending,
    Skipped(String),
    Failed(String),
    /// Not everything could be read or stored.
    Incomplete {
        unreadable: usize,
        canonical_fallbacks: usize,
        read_failures: usize,
        persist_failed: bool,
    },
    /// The workspace is as it was indexed.
    NoLocalDiffs,
    Synced { overlay_files: usize, embedded: usize },
    /// A newer publication took the place of this one.
    Superseded,
}

/// The state, with its texts as sequences of characters.
pub enum WarmupView {
    Pending,
    Skipped(Seq<char>),
    Failed(Seq<char>),
    Incomplete {
        unreadable: usize,
        canonical_fallbacks: usize,
        read_failures: usize,
        persist_failed: bool,
    },
    NoLocalDiffs,
    Synced { overlay_files: usize, embedded: usize },
    Superseded,
}

impl View for OverlayWarmupState {
    type V = WarmupView;

    open spec fn view(&self) -> WarmupView {
        match *self {
            OverlayWarmupState::Pending => WarmupView::Pending,
            OverlayWarmupState::Skipped(text) => WarmupView::Skipped(text@),
            OverlayWarmupState::Failed(text) => WarmupView::Failed(text@),
            OverlayWarmupState::Incomplete {
                unreadable,
                canonical_fallbacks,
                read_failures,
                persist_failed,
            } => WarmupView::Incomplete {
                unreadable,
                canonical_fallbacks,
                read_failures,
                persist_failed,
            },
            OverlayWarmupState::NoLocalDiffs => WarmupView::NoLocalDiffs,
            OverlayWarmupState::Synced { overlay_files, embedded } => WarmupView::Synced {
                overlay_files,
                embedded,
            },
            OverlayWarmupState::Superseded => WarmupView::Superseded,
        }
    }
}

/// How a warmup ended.
pub type WarmupEnd = WorkspaceSearchApply<OverlayWarmupState, String>;

/// The end of a warmup, with its texts as sequences of characters.
pub open spec fn end_view(end: WarmupEnd) -> WorkspaceSearchApply<WarmupView, Seq<char>> {
    match end {
        WorkspaceSearchApply::Applied(state) => WorkspaceSearchApply::Applied(state@),
        WorkspaceSearchApply::TransientRefusal => WorkspaceSearchApply::TransientRefusal,
        WorkspaceSearchApply::Superseded => WorkspaceSearchApply::Superseded,
        WorkspaceSearchApply::Released => WorkspaceSearchApply::Released,
        WorkspaceSearchApply::OperationError(error) => WorkspaceSearchApply::OperationError(error@),
    }
}

/// The text of a workspace that was lost before the publication.
pub open spec fn ownership_lost() -> Seq<char> {
    "workspace ownership lost at publish"@
}

/// The state that the numbers of a finished pass amount to.
pub open spec fn outcome_of(
    plan_empty: bool,
    overlay_files: usize,
    embedded: usize,
    unreadable: usize,
    canonical_fallbacks: usize,
    read_failures: usize,
    persist_failed: bool,
) -> WarmupView {
    if unreadable > 0 || canonical_fallbacks > 0 || read_failures > 0 || persist_failed {
        WarmupView::Incomplete { unreadable, canonical_fallbacks, read_failures, persist_failed }
    } else if plan_empty {
        WarmupView::NoLocalDiffs
    } else {
        WarmupView::Synced { overlay_files, embedded }
    }
}

/// The state that the numbers of a finished pass amount to. A pass that missed anything says
/// so, with its own numbers, and is never reported as free of local edits.
pub fn warmup_outcome(
    plan_empty: bool,
    overlay_files: usize,
    embedded: usize,
    unreadable: usize,
    canonical_fallbacks: usize,
    read_failures: usize,
    persist_failed: bool,
) -> (state: OverlayWarmupState)
    ensures
        state@ == outcome_of(
            plan_empty,
            overlay_files,
            embedded,
            unreadable,
            canonical_fallbacks,
            read_failures,
            persist_failed,
        ),
{
    if unreadable > 0 || canonical_fallbacks > 0 || read_failures > 0 || persist_failed {
        OverlayWarmupState::Incomplete {
            unreadable,
            canonical_fallbacks,
            read_failures,
            persist_failed,
        }
    } else if plan_empty {
        OverlayWarmupState::NoLocalDiffs
    } else {
        OverlayWarmupState::Synced { overlay_files, embedded }
    }
}

/// What the engine gives a warmup to start from.
#[derive(Debug, Clone, PartialEq, Eq)]
pub enum SnapshotAnswer {
    LockError(String),
    EngineMissing,
    NoEmbedder,
    NoWorkspaceRoot,
    /// The warm cache or the dirty paths could not be read.
    Failed(String),
    Captured,
}

/// What a primed overlay holds.
#[derive(Debug, Clone, Copy, PartialEq, Eq, Structural)]
pub struct Primed {
    pub embedded: usize,
    pub scan_unreadable: usize,
    pub scan_canonical_fallbacks: usize,
}

/// What became of the staged publication in the engine.
#[derive(Debug, Clone, PartialEq, Eq)]
pub enum StagingAnswer {
    LockError(String),
    EngineMissing,
    Failed(String),
    Staged,
}

/// What an applied publication did.
#[derive(Debug, Clone, Copy, PartialEq, Eq, Structural)]
pub enum PublishOutcome {
    Applied {
        gate_deferred: usize,
        persist_ok: bool,
        overlay_files: usize,
        deleted_files: usize,
        unread_keys: usize,
    },
    Superseded,
}

/// The next step of a warmup.
#[derive(Debug, Clone, PartialEq, Eq)]
pub enum WarmupStep {
    /// Scan and embed the local edits.
    Prime(AwaitPrimed),
    /// Ask whether the driver still runs, before anything is staged.
    CheckBeforeStaging(AwaitGoStaging),
    /// Stage the publication in the engine.
    Stage(AwaitStaged),
    /// Ask whether the driver still runs, before a publication.
    CheckBeforePublishing(AwaitGoPublishing),
    /// Apply the staged publication under the lease.
    Publish(AwaitPublished),
    /// Ask whether a refused publication is tried again.
    AskRetry(AwaitRetry),
    Done(WarmupEnd),
}

#[derive(Debug, Clone, Copy, PartialEq, Eq, Structural)]
pub struct AwaitPrimed {}

#[derive(Debug, Clone, Copy, PartialEq, Eq, Structural)]
pub struct AwaitGoStaging {
    pub primed: Primed,
}

#[derive(Debug, Clone, Copy, PartialEq, Eq, Structural)]
pub struct AwaitStaged {
    pub primed: Primed,
}

#[derive(Debug, Clone, Copy, PartialEq, Eq, Structural)]
pub struct AwaitGoPublishing {
    pub primed: Primed,
}

#[derive(Debug, Clone, Copy, PartialEq, Eq, Structural)]
pub struct AwaitPublished {
    pub primed: Primed,
}

#[derive(Debug, Clone, Copy, PartialEq, Eq, Structural)]
pub struct AwaitRetry {
    pub primed: Primed,
}

/// The next step, with the texts of an end as sequences of characters.
pub enum WarmupStepView {
    Prime(AwaitPrimed),
    CheckBeforeStaging(AwaitGoStaging),
    Stage(AwaitStaged),
    CheckBeforePublishing(AwaitGoPublishing),
    Publish(AwaitPublished),
    AskRetry(AwaitRetry),
    Done(WorkspaceSearchApply<WarmupView, Seq<char>>),
}

impl View for WarmupStep {
    type V = WarmupStepView;

    open spec fn view(&self) -> WarmupStepView {
        match *self {
            WarmupStep::Prime(ask) => WarmupStepView::Prime(ask),
            WarmupStep::CheckBeforeStaging(ask) => WarmupStepView::CheckBeforeStaging(ask),
            WarmupStep::Stage(ask) => WarmupStepView::Stage(ask),
            WarmupStep::CheckBeforePublishing(ask) => WarmupStepView::CheckBeforePublishing(ask),
            WarmupStep::Publish(ask) => WarmupStepView::Publish(ask),
            WarmupStep::AskRetry(ask) => WarmupStepView::AskRetry(ask),
            WarmupStep::Done(end) => WarmupStepView::Done(end_view(end)),
        }
    }
}

/// A step and the state that is recorded with it, or nothing where the state stays.
pub struct Turn {
    pub step: WarmupStepView,
    pub record: Option<WarmupView>,
}

/// The state went from `before` to `after` by what the turn records.
pub open spec fn recorded(
    before: OverlayWarmupState,
    after: OverlayWarmupState,
    record: Option<WarmupView>,
) -> bool {
    match record {
        Some(state) => after@ == state,
        None => after == before,
    }
}

/// The warmup goes on and records nothing.
pub open spec fn goes_on(step: WarmupStepView) -> Turn {
    Turn { step, record: None }
}

/// The warmup ends and records nothing.
pub open spec fn ends_silently(end: WorkspaceSearchApply<WarmupView, Seq<char>>) -> Turn {
    Turn { step: WarmupStepView::Done(end), record: None }
}

/// The warmup ends with a state, which is recorded.
pub open spec fn ends_as(state: WarmupView) -> Turn {
    Turn {
        step: WarmupStepView::Done(WorkspaceSearchApply::Applied(state)),
        record: Some(state),
    }
}

/// The warmup ends with an error, which is recorded.
pub open spec fn ends_failed(error: Seq<char>) -> Turn {
    Turn {
        step: WarmupStepView::Done(WorkspaceSearchApply::OperationError(error)),
        record: Some(WarmupView::Failed(error)),
    }
}

/// The workspace is lost to another process, which is recorded.
pub open spec fn ends_lost(end: WorkspaceSearchApply<WarmupView, Seq<char>>) -> Turn {
    Turn {
        step: WarmupStepView::Done(end),
        record: Some(WarmupView::Failed(ownership_lost())),
    }
}

impl SnapshotAnswer {
    /// The first turn of a warmup.
    pub open spec fn first_turn(self) -> Turn {
        match self {
            SnapshotAnswer::Captured => goes_on(WarmupStepView::Prime(AwaitPrimed {  })),
            SnapshotAnswer::NoEmbedder => ends_as(WarmupView::Skipped("no embedder configured"@)),
            SnapshotAnswer::NoWorkspaceRoot => ends_as(WarmupView::Skipped("no workspace root"@)),
            SnapshotAnswer::Failed(error) => ends_failed(error@),
            SnapshotAnswer::LockError(error) => ends_failed("engine lock error: "@ + error@),
            SnapshotAnswer::EngineMissing => Turn {
                step: WarmupStepView::Done(
                    WorkspaceSearchApply::OperationError("engine unavailable"@),
                ),
                record: Some(WarmupView::Skipped("engine unavailable"@)),
            },
        }
    }
}

/// What an engine that is there gives a warmup to start from. It is asked for its embedder, its
/// roots, its warm cache and the baseline of its dirty paths, and the first that is missing
/// decides.
pub fn snapshot_answer(
    has_embedder: bool,
    has_roots: bool,
    cache: Result<(), String>,
    baseline: Result<(), String>,
) -> (answer: SnapshotAnswer)
    ensures
        answer == if !has_embedder {
            SnapshotAnswer::NoEmbedder
        } else if !has_roots {
            SnapshotAnswer::NoWorkspaceRoot
        } else {
            match (cache, baseline) {
                (Err(error), _) => SnapshotAnswer::Failed(error),
                (Ok(_), Err(error)) => SnapshotAnswer::Failed(error),
                (Ok(_), Ok(_)) => SnapshotAnswer::Captured,
            }
        },
{
    if !has_embedder {
        return SnapshotAnswer::NoEmbedder;
    }
    if !has_roots {
        return SnapshotAnswer::NoWorkspaceRoot;
    }
    match cache {
        Err(error) => SnapshotAnswer::Failed(error),
        Ok(_) => match baseline {
            Err(error) => SnapshotAnswer::Failed(error),
            Ok(_) => SnapshotAnswer::Captured,
        },
    }
}

fn lock_error_text(error: &str) -> (text: String)
    ensures
        text@ == "engine lock error: "@ + error@,
{
    let mut text: String = "engine lock error: ".to_owned();
    text.append(error);
    text
}

/// Starts a warmup from what the engine gives it. A workspace without an embedder or a root has
/// nothing to warm and says so; a missing engine is an error that a later warmup may not meet.
pub fn run_overlay_warmup(snapshot: SnapshotAnswer, state: &mut OverlayWarmupState) -> (step:
    WarmupStep)
    ensures
        step@ == snapshot.first_turn().step,
        recorded(*old(state), *final(state), snapshot.first_turn().record),
{
    match snapshot {
        SnapshotAnswer::Captured => WarmupStep::Prime(AwaitPrimed {  }),
        SnapshotAnswer::NoEmbedder => {
            *state = OverlayWarmupState::Skipped("no embedder configured".to_owned());
            WarmupStep::Done(
                WorkspaceSearchApply::Applied(
                    OverlayWarmupState::Skipped("no embedder configured".to_owned()),
                ),
            )
        },
        SnapshotAnswer::NoWorkspaceRoot => {
            *state = OverlayWarmupState::Skipped("no workspace root".to_owned());
            WarmupStep::Done(
                WorkspaceSearchApply::Applied(
                    OverlayWarmupState::Skipped("no workspace root".to_owned()),
                ),
            )
        },
        SnapshotAnswer::Failed(error) => failed_step(error, state),
        SnapshotAnswer::LockError(error) => failed_step(lock_error_text(error.as_str()), state),
        SnapshotAnswer::EngineMissing => {
            *state = OverlayWarmupState::Skipped("engine unavailable".to_owned());
            WarmupStep::Done(WorkspaceSearchApply::OperationError("engine unavailable".to_owned()))
        },
    }
}

fn failed_step(error: String, state: &mut OverlayWarmupState) -> (step: WarmupStep)
    ensures
        step@ == ends_failed(error@).step,
        recorded(*old(state), *final(state), ends_failed(error@).record),
{
    *state = OverlayWarmupState::Failed(error.clone());
    WarmupStep::Done(WorkspaceSearchApply::OperationError(error))
}

fn lost(state: &mut OverlayWarmupState)
    ensures
        final(state)@ == WarmupView::Failed(ownership_lost()),
{
    *state = OverlayWarmupState::Failed("workspace ownership lost at publish".to_owned());
}

impl AwaitPrimed {
    pub open spec fn next(self, primed: Result<FenceOutcome<Primed>, String>) -> Turn {
        match primed {
            Ok(FenceOutcome::Applied(primed)) => goes_on(
                WarmupStepView::CheckBeforeStaging(AwaitGoStaging { primed }),
            ),
            Ok(FenceOutcome::TransientRefusal) => ends_silently(
                WorkspaceSearchApply::TransientRefusal,
            ),
            Ok(FenceOutcome::Superseded) => ends_lost(WorkspaceSearchApply::Superseded),
            Ok(FenceOutcome::Released) => ends_silently(WorkspaceSearchApply::Released),
            Err(error) => ends_failed(error@),
        }
    }

    /// The local edits were scanned and embedded, or not.
    pub fn answer(
        self,
        primed: Result<FenceOutcome<Primed>, String>,
        state: &mut OverlayWarmupState,
    ) -> (step: WarmupStep)
        ensures
            step@ == self.next(primed).step,
            recorded(*old(state), *final(state), self.next(primed).record),
    {
        match primed {
            Ok(FenceOutcome::Applied(primed)) => WarmupStep::CheckBeforeStaging(
                AwaitGoStaging { primed },
            ),
            Ok(FenceOutcome::TransientRefusal) => WarmupStep::Done(
                WorkspaceSearchApply::TransientRefusal,
            ),
            Ok(FenceOutcome::Superseded) => {
                lost(state);
                WarmupStep::Done(WorkspaceSearchApply::Superseded)
            },
            Ok(FenceOutcome::Released) => WarmupStep::Done(WorkspaceSearchApply::Released),
            Err(error) => failed_step(error, state),
        }
    }
}

impl AwaitGoStaging {
    pub open spec fn next(self, keep_going: bool) -> Turn {
        if keep_going {
            goes_on(WarmupStepView::Stage(AwaitStaged { primed: self.primed }))
        } else {
            ends_lost(WorkspaceSearchApply::Released)
        }
    }

    /// A driver that was stopped stages nothing, even where nothing had to be embedded.
    pub fn answer(self, keep_going: bool, state: &mut OverlayWarmupState) -> (step: WarmupStep)
        ensures
            step@ == self.next(keep_going).step,
            recorded(*old(state), *final(state), self.next(keep_going).record),
    {
        if keep_going {
            WarmupStep::Stage(AwaitStaged { primed: self.primed })
        } else {
            lost(state);
            WarmupStep::Done(WorkspaceSearchApply::Released)
        }
    }
}

impl AwaitStaged {
    pub open spec fn next(self, staged: StagingAnswer) -> Turn {
        match staged {
            StagingAnswer::Staged => goes_on(
                WarmupStepView::CheckBeforePublishing(AwaitGoPublishing { primed: self.primed }),
            ),
            StagingAnswer::Failed(error) => ends_failed(error@),
            StagingAnswer::EngineMissing => ends_silently(
                WorkspaceSearchApply::OperationError("engine unavailable"@),
            ),
            StagingAnswer::LockError(error) => ends_silently(
                WorkspaceSearchApply::OperationError("engine lock error: "@ + error@),
            ),
        }
    }

    /// The publication was staged, or not.
    pub fn answer(self, staged: StagingAnswer, state: &mut OverlayWarmupState) -> (step: WarmupStep)
        ensures
            step@ == self.next(staged).step,
            recorded(*old(state), *final(state), self.next(staged).record),
    {
        match staged {
            StagingAnswer::Staged => WarmupStep::CheckBeforePublishing(
                AwaitGoPublishing { primed: self.primed },
            ),
            StagingAnswer::Failed(error) => failed_step(error, state),
            StagingAnswer::EngineMissing => WarmupStep::Done(
                WorkspaceSearchApply::OperationError("engine unavailable".to_owned()),
            ),
            StagingAnswer::LockError(error) => WarmupStep::Done(
                WorkspaceSearchApply::OperationError(lock_error_text(error.as_str())),
            ),
        }
    }
}

impl AwaitGoPublishing {
    pub open spec fn next(self, keep_going: bool) -> Turn {
        if keep_going {
            goes_on(WarmupStepView::Publish(AwaitPublished { primed: self.primed }))
        } else {
            ends_silently(WorkspaceSearchApply::Released)
        }
    }

    /// A driver that was stopped publishes nothing.
    pub fn answer(self, keep_going: bool) -> (step: WarmupStep)
        ensures
            step@ == self.next(keep_going).step,
            self.next(keep_going).record is None,
    {
        if keep_going {
            WarmupStep::Publish(AwaitPublished { primed: self.primed })
        } else {
            WarmupStep::Done(WorkspaceSearchApply::Released)
        }
    }
}

/// The state that a publication of these numbers amounts to.
pub open spec fn published_view(primed: Primed, outcome: PublishOutcome) -> WarmupView {
    match outcome {
        PublishOutcome::Applied {
            gate_deferred,
            persist_ok,
            overlay_files,
            deleted_files,
            unread_keys,
        } => outcome_of(
            overlay_files == 0 && deleted_files == 0,
            overlay_files,
            primed.embedded,
            primed.scan_unreadable,
            primed.scan_canonical_fallbacks,
            (unread_keys + gate_deferred) as usize,
            !persist_ok,
        ),
        PublishOutcome::Superseded => WarmupView::Superseded,
    }
}

impl AwaitPublished {
    pub open spec fn next(self, published: WorkspaceSearchApply<PublishOutcome, String>) -> Turn {
        match published {
            WorkspaceSearchApply::Applied(outcome) => ends_as(
                published_view(self.primed, outcome),
            ),
            WorkspaceSearchApply::TransientRefusal => goes_on(
                WarmupStepView::AskRetry(AwaitRetry { primed: self.primed }),
            ),
            WorkspaceSearchApply::Superseded => ends_lost(WorkspaceSearchApply::Superseded),
            WorkspaceSearchApply::Released => ends_silently(WorkspaceSearchApply::Released),
            WorkspaceSearchApply::OperationError(error) => ends_failed(error@),
        }
    }

    /// The staged publication was applied, or not. Only a refusal is tried again.
    pub fn answer(
        self,
        published: WorkspaceSearchApply<PublishOutcome, String>,
        state: &mut OverlayWarmupState,
    ) -> (step: WarmupStep)
        requires
            published matches WorkspaceSearchApply::Applied(PublishOutcome::Applied {
                gate_deferred,
                unread_keys,
                ..
            }) ==> unread_keys + gate_deferred <= usize::MAX,
        ensures
            step@ == self.next(published).step,
            recorded(*old(state), *final(state), self.next(published).record),
    {
        match published {
            WorkspaceSearchApply::Applied(outcome) => {
                *state = self.published_state(outcome);
                WarmupStep::Done(WorkspaceSearchApply::Applied(self.published_state(outcome)))
            },
            WorkspaceSearchApply::TransientRefusal => WarmupStep::AskRetry(
                AwaitRetry { primed: self.primed },
            ),
            WorkspaceSearchApply::Superseded => {
                lost(state);
                WarmupStep::Done(WorkspaceSearchApply::Superseded)
            },
            WorkspaceSearchApply::Released => WarmupStep::Done(WorkspaceSearchApply::Released),
            WorkspaceSearchApply::OperationError(error) => failed_step(error, state),
        }
    }

    fn published_state(self, outcome: PublishOutcome) -> (state: OverlayWarmupState)
        requires
            outcome matches PublishOutcome::Applied { gate_deferred, unread_keys, .. }
                ==> unread_keys + gate_deferred <= usize::MAX,
        ensures
            state@ == published_view(self.primed, outcome),
    {
        match outcome {
            PublishOutcome::Applied {
                gate_deferred,
                persist_ok,
                overlay_files,
                deleted_files,
                unread_keys,
            } => warmup_outcome(
                overlay_files == 0 && deleted_files == 0,
                overlay_files,
                self.primed.embedded,
                self.primed.scan_unreadable,
                self.primed.scan_canonical_fallbacks,
                unread_keys + gate_deferred,
                !persist_ok,
            ),
            PublishOutcome::Superseded => OverlayWarmupState::Superseded,
        }
    }
}

impl AwaitRetry {
    pub open spec fn next(self, retry: bool) -> Turn {
        if retry {
            goes_on(
                WarmupStepView::CheckBeforePublishing(AwaitGoPublishing { primed: self.primed }),
            )
        } else {
            ends_silently(WorkspaceSearchApply::TransientRefusal)
        }
    }

    /// A refused publication is tried again as it was staged, or given up for now.
    pub fn answer(self, retry: bool) -> (step: WarmupStep)
        ensures
            step@ == self.next(retry).step,
            self.next(retry).record is None,
    {
        if retry {
            WarmupStep::CheckBeforePublishing(AwaitGoPublishing { primed: self.primed })
        } else {
            WarmupStep::Done(WorkspaceSearchApply::TransientRefusal)
        }
    }
}

/// What a host answers, whatever it is asked: each question takes its part.
pub struct WarmupAnswer {
    pub primed: Result<FenceOutcome<Primed>, String>,
    pub staged: StagingAnswer,
    pub keep_going: bool,
    pub published: WorkspaceSearchApply<PublishOutcome, String>,
    pub retry: bool,
}

/// The turn after `step`.
pub open spec fn turn(step: WarmupStepView, answer: WarmupAnswer) -> Turn {
    match step {
        WarmupStepView::Prime(ask) => ask.next(answer.primed),
        WarmupStepView::CheckBeforeStaging(ask) => ask.next(answer.keep_going),
        WarmupStepView::Stage(ask) => ask.next(answer.staged),
        WarmupStepView::CheckBeforePublishing(ask) => ask.next(answer.keep_going),
        WarmupStepView::Publish(ask) => ask.next(answer.published),
        WarmupStepView::AskRetry(ask) => ask.next(answer.retry),
        WarmupStepView::Done(_) => goes_on(step),
    }
}

/// Where a warmup is after these answers: its step, and the state that a client reads.
pub open spec fn warmup_run(
    step: WarmupStepView,
    state: WarmupView,
    answers: Seq<WarmupAnswer>,
) -> (WarmupStepView, WarmupView)
    decreases answers.len(),
{
    if answers.len() == 0 {
        (step, state)
    } else {
        let (step, state) = warmup_run(step, state, answers.drop_last());
        let turn = turn(step, answers.last());
        (
            turn.step,
            match turn.record {
                Some(state) => state,
                None => state,
            },
        )
    }
}

/// What a client reads agrees with how the warmup ended: the state of a warmup that was applied
/// is the state that it reports, and one that lost the workspace says so.
pub open spec fn truthful(step: WarmupStepView, state: WarmupView) -> bool {
    match step {
        WarmupStepView::Done(WorkspaceSearchApply::Applied(reported)) => state == reported,
        WarmupStepView::Done(WorkspaceSearchApply::Superseded) => state == WarmupView::Failed(
            ownership_lost(),
        ),
        _ => true,
    }
}

/// Whatever the host answers and however long it retries, the state that a client reads agrees
/// with how the warmup ended.
pub proof fn the_recorded_state_agrees_with_the_end(
    snapshot: SnapshotAnswer,
    before: WarmupView,
    answers: Seq<WarmupAnswer>,
)
    ensures
        ({
            let first = snapshot.first_turn();
            let state = match first.record {
                Some(state) => state,
                None => before,
            };
            let (step, after) = warmup_run(first.step, state, answers);
            truthful(step, after)
        }),
{
    let first = snapshot.first_turn();
    let state = match first.record {
        Some(state) => state,
        None => before,
    };
    lemma_runs_stay_truthful(first.step, state, answers);
}

proof fn lemma_runs_stay_truthful(
    step: WarmupStepView,
    state: WarmupView,
    answers: Seq<WarmupAnswer>,
)
    requires
        truthful(step, state),
    ensures
        ({
            let (after_step, after_state) = warmup_run(step, state, answers);
            truthful(after_step, after_state)
        }),
    decreases answers.len(),
{
    if answers.len() > 0 {
        lemma_runs_stay_truthful(step, state, answers.drop_last());
    }
}

/// A driver that is stopped never gets to publish: while the answer is to stop, no step is a
/// publication, and from either check the warmup ends released.
pub proof fn a_stopped_driver_never_publishes(step: WarmupStepView, answer: WarmupAnswer)
    requires
        !answer.keep_going,
    ensures
        !(turn(step, answer).step is Publish),
        step is CheckBeforeStaging || step is CheckBeforePublishing ==> turn(step, answer).step
            == WarmupStepView::Done(WorkspaceSearchApply::Released),
{
}

/// A refused publication is tried again with what was embedded for it: no retry goes back to
/// the embedder.
pub proof fn a_retry_embeds_nothing_again(ask: AwaitPublished, answer: WarmupAnswer)
    requires
        answer.published is TransientRefusal,
        answer.retry,
        answer.keep_going,
    ensures
        ({
            let asked = turn(WarmupStepView::Publish(ask), answer).step;
            let checked = turn(asked, answer).step;
            turn(checked, answer).step == WarmupStepView::Publish(ask)
        }),
{
}

/// A pass is reported as free of local edits only where it read everything, stored everything
/// and found nothing; a synced pass read and stored everything too.
pub proof fn a_clean_report_means_a_complete_pass(
    plan_empty: bool,
    overlay_files: usize,
    embedded: usize,
    unreadable: usize,
    canonical_fallbacks: usize,
    read_failures: usize,
    persist_failed: bool,
)
    ensures
        ({
            let view = outcome_of(
                plan_empty,
                overlay_files,
                embedded,
                unreadable,
                canonical_fallbacks,
                read_failures,
                persist_failed,
            );
            let complete = unreadable == 0 && canonical_fallbacks == 0 && read_failures == 0
                && !persist_failed;
            &&& view is NoLocalDiffs <==> complete && plan_empty
            &&& view is Synced <==> complete && !plan_empty
            &&& view is Incomplete <==> !complete
            &&& view matches WarmupView::Synced { overlay_files: files, embedded: count } ==> files
                == overlay_files && count == embedded
            &&& view matches WarmupView::Incomplete {
                unreadable: unread,
                canonical_fallbacks: fallbacks,
                read_failures: failures,
                persist_failed: lost,
            } ==> unread == unreadable && fallbacks == canonical_fallbacks && failures
                == read_failures && lost == persist_failed
        }),
{
}

/// The warmup ends with an error that says this, and a client reads it too.
pub open spec fn failed_saying(
    step: WarmupStep,
    state: OverlayWarmupState,
    text: Seq<char>,
) -> bool {
    &&& step matches WarmupStep::Done(WorkspaceSearchApply::OperationError(error)) && error@ == text
    &&& state matches OverlayWarmupState::Failed(said) && said@ == text
}

/// A client reads that the workspace was lost.
pub open spec fn lost_to_another(state: OverlayWarmupState) -> bool {
    state matches OverlayWarmupState::Failed(said) && said@ == "workspace ownership lost at publish"@
}

/// What a finished pass is reported as: incomplete, with its own numbers, where it missed or lost
/// anything; free of local edits where there were none; and else synced, with what it synced.
pub open spec fn tells_the_numbers(
    state: OverlayWarmupState,
    plan_empty: bool,
    files: usize,
    embedded_by: usize,
    unread: usize,
    fallbacks: usize,
    failures: int,
    lost: bool,
) -> bool {
    let complete = unread == 0 && fallbacks == 0 && failures == 0 && !lost;
    &&& state is NoLocalDiffs <==> complete && plan_empty
    &&& state is Synced <==> complete && !plan_empty
    &&& state is Incomplete <==> !complete
    &&& state matches OverlayWarmupState::Synced { overlay_files, embedded } ==> overlay_files
        == files && embedded == embedded_by
    &&& state matches OverlayWarmupState::Incomplete {
        unreadable,
        canonical_fallbacks,
        read_failures,
        persist_failed,
    } ==> unreadable == unread && canonical_fallbacks == fallbacks && read_failures == failures
        && persist_failed == lost
}

/// A warmup that nothing stands in the way of ends as the numbers of its publication, and these are
/// what a client reads: the files of the overlay and of the scan as the engine counted them, what
/// was left unread and what was put off together, and whether the rest was stored. A publication
/// that came too late is superseded.
pub proof fn a_warmup_ends_as_its_numbers(
    before: WarmupView,
    answer: WarmupAnswer,
    primed: Primed,
    outcome: PublishOutcome,
)
    requires
        answer.primed == Ok::<FenceOutcome<Primed>, String>(FenceOutcome::Applied(primed)),
        answer.keep_going,
        answer.staged is Staged,
        answer.published == WorkspaceSearchApply::<PublishOutcome, String>::Applied(outcome),
        outcome matches PublishOutcome::Applied { gate_deferred, unread_keys, .. } ==> unread_keys
            + gate_deferred <= usize::MAX,
    ensures
        ({
            let answers = seq![answer, answer, answer, answer, answer];
            let (step, state) = warmup_run(
                SnapshotAnswer::Captured.first_turn().step,
                before,
                answers,
            );
            &&& step == WarmupStepView::Done(WorkspaceSearchApply::Applied(state))
            &&& outcome is Superseded <==> state is Superseded
            &&& outcome matches PublishOutcome::Applied {
                gate_deferred,
                persist_ok,
                overlay_files,
                deleted_files,
                unread_keys,
            } ==> {
                let unread = unread_keys + gate_deferred;
                let complete = primed.scan_unreadable == 0 && primed.scan_canonical_fallbacks == 0
                    && unread == 0 && persist_ok;
                &&& state is NoLocalDiffs <==> complete && overlay_files == 0 && deleted_files == 0
                &&& complete && (overlay_files > 0 || deleted_files > 0) ==> state == (
                WarmupView::Synced { overlay_files, embedded: primed.embedded })
                &&& !complete ==> (state matches WarmupView::Incomplete {
                    unreadable,
                    canonical_fallbacks,
                    read_failures,
                    persist_failed,
                } && unreadable == primed.scan_unreadable && canonical_fallbacks
                    == primed.scan_canonical_fallbacks && read_failures == unread && persist_failed
                    == !persist_ok)
            }
        }),
{
    let first = SnapshotAnswer::Captured.first_turn().step;
    let five = seq![answer, answer, answer, answer, answer];
    let four = seq![answer, answer, answer, answer];
    let three = seq![answer, answer, answer];
    let two = seq![answer, answer];
    let one = seq![answer];
    assert(five.drop_last() =~= four);
    assert(four.drop_last() =~= three);
    assert(three.drop_last() =~= two);
    assert(two.drop_last() =~= one);
    assert(one.drop_last() =~= Seq::<WarmupAnswer>::empty());
    assert(warmup_run(first, before, Seq::<WarmupAnswer>::empty()) == (first, before));
    assert(warmup_run(first, before, one) == (
        WarmupStepView::CheckBeforeStaging(AwaitGoStaging { primed }),
        before,
    ));
    assert(warmup_run(first, before, two) == (
        WarmupStepView::Stage(AwaitStaged { primed }),
        before,
    ));
    assert(warmup_run(first, before, three) == (
        WarmupStepView::CheckBeforePublishing(AwaitGoPublishing { primed }),
        before,
    ));
    assert(warmup_run(first, before, four) == (
        WarmupStepView::Publish(AwaitPublished { primed }),
        before,
    ));
}

/// A finished pass is reported by its numbers.
pub proof fn a_finished_pass_tells_its_numbers(
    plan_empty: bool,
    overlay_files: usize,
    embedded: usize,
    unreadable: usize,
    canonical_fallbacks: usize,
    read_failures: usize,
    persist_failed: bool,
    state: OverlayWarmupState,
)
    requires
        call_ensures(
            warmup_outcome,
            (
                plan_empty,
                overlay_files,
                embedded,
                unreadable,
                canonical_fallbacks,
                read_failures,
                persist_failed,
            ),
            state,
        ),
    ensures
        tells_the_numbers(
            state,
            plan_empty,
            overlay_files,
            embedded,
            unreadable,
            canonical_fallbacks,
            read_failures as int,
            persist_failed,
        ),
{
}

/// An engine is captured exactly where it has an embedder and roots and both its cache and its
/// baseline could be read. The first that is missing is told, and an error in its own words.
pub proof fn the_first_thing_missing_is_told(
    has_embedder: bool,
    has_roots: bool,
    cache: Result<(), String>,
    baseline: Result<(), String>,
    answer: SnapshotAnswer,
)
    requires
        call_ensures(snapshot_answer, (has_embedder, has_roots, cache, baseline), answer),
    ensures
        answer is Captured <==> has_embedder && has_roots && cache is Ok && baseline is Ok,
        answer is NoEmbedder <==> !has_embedder,
        answer is NoWorkspaceRoot <==> has_embedder && !has_roots,
        has_embedder && has_roots ==> (cache matches Err(error) ==> (answer
            matches SnapshotAnswer::Failed(given) && given == error)),
        has_embedder && has_roots && cache is Ok ==> (baseline matches Err(error) ==> (answer
            matches SnapshotAnswer::Failed(given) && given == error)),
{
}

/// A captured engine is warmed, and the state stays until there is something to say. Where there is
/// nothing to warm, the warmup is skipped and says why; an engine that is missing is skipped too,
/// but ends as an error. What failed is told in its own words.
pub proof fn only_a_captured_engine_is_warmed(snapshot: SnapshotAnswer, step: WarmupStep)
    ensures
        forall|state: &mut OverlayWarmupState| #[trigger]
            call_ensures(run_overlay_warmup, (snapshot, state), step) ==> {
                &&& step is Prime <==> snapshot is Captured
                &&& snapshot is Captured ==> *final(state) == *state
                &&& snapshot is NoEmbedder ==> {
                    &&& step matches WarmupStep::Done(
                        WorkspaceSearchApply::Applied(OverlayWarmupState::Skipped(reported)),
                    ) && reported@ == "no embedder configured"@
                    &&& *final(state) matches OverlayWarmupState::Skipped(said) && said@
                        == "no embedder configured"@
                }
                &&& snapshot is NoWorkspaceRoot ==> {
                    &&& step matches WarmupStep::Done(
                        WorkspaceSearchApply::Applied(OverlayWarmupState::Skipped(reported)),
                    ) && reported@ == "no workspace root"@
                    &&& *final(state) matches OverlayWarmupState::Skipped(said) && said@
                        == "no workspace root"@
                }
                &&& snapshot matches SnapshotAnswer::Failed(error) ==> failed_saying(
                    step,
                    *final(state),
                    error@,
                )
                &&& snapshot matches SnapshotAnswer::LockError(error) ==> failed_saying(
                    step,
                    *final(state),
                    "engine lock error: "@ + error@,
                )
                &&& snapshot is EngineMissing ==> {
                    &&& step matches WarmupStep::Done(WorkspaceSearchApply::OperationError(error))
                        && error@ == "engine unavailable"@
                    &&& *final(state) matches OverlayWarmupState::Skipped(said) && said@
                        == "engine unavailable"@
                }
            },
{
}

/// What was embedded goes on to the publication with its own numbers. A refusal and a release end
/// the warmup and leave the state; a lost workspace and an error are told.
pub proof fn what_was_embedded_goes_on(
    ask: AwaitPrimed,
    primed: Result<FenceOutcome<Primed>, String>,
    step: WarmupStep,
)
    ensures
        forall|state: &mut OverlayWarmupState| #[trigger]
            call_ensures(AwaitPrimed::answer, (ask, primed, state), step) ==> {
                &&& primed matches Ok(FenceOutcome::Applied(numbers)) ==> (step
                    matches WarmupStep::CheckBeforeStaging(next) && next.primed == numbers)
                    && *final(state) == *state
                &&& primed matches Ok(FenceOutcome::TransientRefusal) ==> (step
                    matches WarmupStep::Done(end) && end is TransientRefusal) && *final(state)
                    == *state
                &&& primed matches Ok(FenceOutcome::Released) ==> (step matches WarmupStep::Done(
                    end,
                ) && end is Released) && *final(state) == *state
                &&& primed matches Ok(FenceOutcome::Superseded) ==> (step
                    matches WarmupStep::Done(end) && end is Superseded) && lost_to_another(
                    *final(state),
                )
                &&& primed matches Err(error) ==> failed_saying(step, *final(state), error@)
            },
{
}

/// A driver goes on with the numbers it has exactly while it is told to. One that is stopped before
/// anything is staged tells that the workspace was lost, and one that is stopped later leaves the
/// state; both end released.
pub proof fn a_stopped_driver_goes_no_further(
    staging: AwaitGoStaging,
    publishing: AwaitGoPublishing,
    keep_going: bool,
    step: WarmupStep,
    later: WarmupStep,
)
    requires
        call_ensures(AwaitGoPublishing::answer, (publishing, keep_going), later),
    ensures
        forall|state: &mut OverlayWarmupState| #[trigger]
            call_ensures(AwaitGoStaging::answer, (staging, keep_going, state), step) ==> {
                &&& keep_going ==> (step matches WarmupStep::Stage(next) && next.primed
                    == staging.primed) && *final(state) == *state
                &&& !keep_going ==> (step matches WarmupStep::Done(end) && end is Released)
                    && lost_to_another(*final(state))
            },
        keep_going ==> (later matches WarmupStep::Publish(next) && next.primed
            == publishing.primed),
        !keep_going ==> (later matches WarmupStep::Done(end) && end is Released),
{
}

/// What was staged is published with the numbers of its scan. What could not be staged ends the
/// warmup with an error that says why; only the failure of the staging itself is read by clients.
pub proof fn what_was_staged_is_published(
    ask: AwaitStaged,
    staged: StagingAnswer,
    step: WarmupStep,
)
    ensures
        forall|state: &mut OverlayWarmupState| #[trigger]
            call_ensures(AwaitStaged::answer, (ask, staged, state), step) ==> {
                &&& step is CheckBeforePublishing <==> staged is Staged
                &&& step matches WarmupStep::CheckBeforePublishing(next) ==> next.primed
                    == ask.primed
                &&& !(staged is Failed) ==> *final(state) == *state
                &&& staged matches StagingAnswer::Failed(error) ==> failed_saying(
                    step,
                    *final(state),
                    error@,
                )
                &&& staged is EngineMissing ==> (step matches WarmupStep::Done(
                    WorkspaceSearchApply::OperationError(error),
                ) && error@ == "engine unavailable"@)
                &&& staged matches StagingAnswer::LockError(error) ==> (step
                    matches WarmupStep::Done(WorkspaceSearchApply::OperationError(given))
                    && given@ == "engine lock error: "@ + error@)
            },
{
}

/// A publication that was applied ends the warmup as its numbers, read off the engine's answer and
/// the scan before it, and clients read the same. Only a refusal for now is asked about again, with
/// the same numbers; a lost workspace and an error are told, and a release leaves the state.
pub proof fn a_publication_is_told_by_its_numbers(
    ask: AwaitPublished,
    published: WorkspaceSearchApply<PublishOutcome, String>,
    step: WarmupStep,
)
    requires
        published matches WorkspaceSearchApply::Applied(
            PublishOutcome::Applied { gate_deferred, unread_keys, .. },
        ) ==> unread_keys + gate_deferred <= usize::MAX,
    ensures
        forall|state: &mut OverlayWarmupState| #[trigger]
            call_ensures(AwaitPublished::answer, (ask, published, state), step) ==> {
                &&& published matches WorkspaceSearchApply::Applied(
                    PublishOutcome::Applied {
                        gate_deferred,
                        persist_ok,
                        overlay_files,
                        deleted_files,
                        unread_keys,
                    },
                ) ==> {
                    &&& step matches WarmupStep::Done(WorkspaceSearchApply::Applied(reported))
                        && tells_the_numbers(
                        reported,
                        overlay_files == 0 && deleted_files == 0,
                        overlay_files,
                        ask.primed.embedded,
                        ask.primed.scan_unreadable,
                        ask.primed.scan_canonical_fallbacks,
                        unread_keys + gate_deferred,
                        !persist_ok,
                    )
                    &&& tells_the_numbers(
                        *final(state),
                        overlay_files == 0 && deleted_files == 0,
                        overlay_files,
                        ask.primed.embedded,
                        ask.primed.scan_unreadable,
                        ask.primed.scan_canonical_fallbacks,
                        unread_keys + gate_deferred,
                        !persist_ok,
                    )
                }
                &&& published matches WorkspaceSearchApply::Applied(PublishOutcome::Superseded)
                    ==> (step matches WarmupStep::Done(WorkspaceSearchApply::Applied(reported))
                    && reported is Superseded) && *final(state) is Superseded
                &&& step is AskRetry <==> published is TransientRefusal
                &&& step matches WarmupStep::AskRetry(next) ==> next.primed == ask.primed
                    && *final(state) == *state
                &&& published is Superseded ==> (step matches WarmupStep::Done(end) && end
                    is Superseded) && lost_to_another(*final(state))
                &&& published is Released ==> (step matches WarmupStep::Done(end) && end
                    is Released) && *final(state) == *state
                &&& published matches WorkspaceSearchApply::OperationError(error)
                    ==> failed_saying(step, *final(state), error@)
            },
{
}

/// A refused publication is tried again with its own numbers exactly where it is asked for, and else
/// ends as refused for now.
pub proof fn a_refused_publication_is_tried_again_as_it_was(
    ask: AwaitRetry,
    retry: bool,
    step: WarmupStep,
)
    requires
        call_ensures(AwaitRetry::answer, (ask, retry), step),
    ensures
        step is CheckBeforePublishing <==> retry,
        step matches WarmupStep::CheckBeforePublishing(next) ==> next.primed == ask.primed,
        !retry ==> (step matches WarmupStep::Done(end) && end is TransientRefusal),
{
}

} // verus!
