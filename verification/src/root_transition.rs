//! Moving the search roots to the table of a published graph.
//!
//! The refresh asks its host one question at a time. Each question is a value that takes the
//! answer and gives the next step, so a step can neither be skipped nor be answered twice.
//! A refresh that did not get through leaves its obligation: it reports itself unhandled.

use crate::apply::WorkspaceSearchApply;
use vstd::prelude::*;

verus! {

/// What the publication of a graph tells its listeners.
#[derive(Debug, Clone, PartialEq, Eq)]
pub struct GraphPublishSignal<W> {
    pub drift_pending: bool,
    pub build_start_seq: i64,
    pub topology_changed: bool,
    pub topology: u64,
    pub roots_refresh_requested: bool,
    pub workspace_roots: Option<W>,
}

/// How the refresh of the roots ended.
#[derive(Debug, Clone, Copy, PartialEq, Eq, Structural)]
pub struct RootOutcome {
    pub handled: bool,
    pub pending_collection_embeddings: bool,
    pub pending_overlay_embeddings: bool,
}

/// The refresh still owes its work.
pub open spec fn still_owed() -> RootOutcome {
    RootOutcome {
        handled: false,
        pending_collection_embeddings: false,
        pending_overlay_embeddings: false,
    }
}

/// The refresh is done and embeds nothing.
pub open spec fn quietly_done() -> RootOutcome {
    RootOutcome {
        handled: true,
        pending_collection_embeddings: false,
        pending_overlay_embeddings: false,
    }
}

/// What the engine says of the published roots.
#[derive(Debug, Clone, Copy, PartialEq, Eq, Structural)]
pub enum SeedAnswer {
    LockPoisoned,
    EngineMissing,
    /// The engine has these roots already.
    SameRoots,
    /// The engine captured what a transition starts from.
    Captured,
    Failed,
}

/// What became of a planned transition when it was checked against the disk.
#[derive(Debug, Clone, Copy, PartialEq, Eq, Structural)]
pub enum ValidationAnswer {
    Validated,
    Superseded,
    Failed,
}

/// What became of a validated transition in the engine.
#[derive(Debug, Clone, Copy, PartialEq, Eq, Structural)]
pub enum StageAnswer {
    LockPoisoned,
    EngineMissing,
    Staged,
    Superseded,
    Failed,
}

/// What an applied transition did.
#[derive(Debug, Clone, Copy, PartialEq, Eq, Structural)]
pub enum WorkspaceRootsTransitionOutcome {
    Unchanged,
    Applied {
        removed: usize,
        rebuilt: usize,
        added: usize,
        pending_collection_embeddings: bool,
        pending_overlay_embeddings: bool,
    },
    Superseded,
}

/// How the context provider of the published graph is installed after a transition.
#[derive(Debug, Clone, Copy, PartialEq, Eq, Structural)]
pub enum ProviderInstall {
    /// It is installed, and its failure is the failure of the write.
    Required,
    /// It is installed, and its failure changes nothing.
    BestEffort,
    /// It is not installed.
    Skipped,
}

/// The next step of a refresh.
#[derive(Debug, Clone, Copy, PartialEq, Eq, Structural)]
pub enum RootStep {
    /// Open the graph database and read its topology.
    OpenGraph(AwaitGraph),
    /// Ask the engine for a transition to the published roots.
    CaptureSeed(AwaitSeed),
    /// Install the provider into an engine that has the roots already.
    InstallProvider(AwaitInstall),
    /// Note the drift epoch, then plan the transition.
    Plan(AwaitPlan),
    /// Check the plan against the disk.
    Revalidate(AwaitValidation),
    /// Stage the validated transition in the engine.
    Stage(AwaitStage),
    /// Apply the staged transition under the lease.
    Apply(AwaitApply),
    Done(RootOutcome),
}

#[derive(Debug, Clone, Copy, PartialEq, Eq, Structural)]
pub struct AwaitGraph {
    pub topology: u64,
}

#[derive(Debug, Clone, Copy, PartialEq, Eq, Structural)]
pub struct AwaitSeed {}

#[derive(Debug, Clone, Copy, PartialEq, Eq, Structural)]
pub struct AwaitInstall {}

#[derive(Debug, Clone, Copy, PartialEq, Eq, Structural)]
pub struct AwaitPlan {}

#[derive(Debug, Clone, Copy, PartialEq, Eq, Structural)]
pub struct AwaitValidation {
    pub epoch: u64,
}

#[derive(Debug, Clone, Copy, PartialEq, Eq, Structural)]
pub struct AwaitStage {
    pub epoch: u64,
}

#[derive(Debug, Clone, Copy, PartialEq, Eq, Structural)]
pub struct AwaitApply {
    pub epoch: u64,
}

fn owed() -> (step: RootStep)
    ensures
        step == RootStep::Done(still_owed()),
{
    RootStep::Done(
        RootOutcome {
            handled: false,
            pending_collection_embeddings: false,
            pending_overlay_embeddings: false,
        },
    )
}

fn done() -> (step: RootStep)
    ensures
        step == RootStep::Done(quietly_done()),
{
    RootStep::Done(
        RootOutcome {
            handled: true,
            pending_collection_embeddings: false,
            pending_overlay_embeddings: false,
        },
    )
}

impl<W> GraphPublishSignal<W> {
    /// The first step of the refresh that the signal asks for.
    pub open spec fn first_step(&self) -> RootStep {
        if !self.roots_refresh_requested {
            RootStep::Done(quietly_done())
        } else if self.drift_pending || self.workspace_roots is None {
            RootStep::Done(still_owed())
        } else {
            RootStep::OpenGraph(AwaitGraph { topology: self.topology })
        }
    }
}

/// Starts the refresh of the search roots after a graph was published.
pub fn refresh_search_roots_after_graph<W>(signal: &GraphPublishSignal<W>) -> (step: RootStep)
    ensures
        step == signal.first_step(),
{
    if !signal.roots_refresh_requested {
        return done();
    }
    if signal.drift_pending {
        return owed();
    }
    match &signal.workspace_roots {
        None => owed(),
        Some(_) => RootStep::OpenGraph(AwaitGraph { topology: signal.topology }),
    }
}

/// Whether the graph database on disk is the published build: it opened, and its token names
/// the topology that was published.
pub fn published_graph_context_provider(on_disk: Option<u64>, topology: u64) -> (published: bool)
    ensures
        published == (on_disk == Some(topology)),
{
    match on_disk {
        Some(found) => found == topology,
        None => false,
    }
}

impl AwaitGraph {
    pub open spec fn next(self, on_disk: Option<u64>) -> RootStep {
        if on_disk == Some(self.topology) {
            RootStep::CaptureSeed(AwaitSeed {  })
        } else {
            RootStep::Done(still_owed())
        }
    }

    /// `on_disk` is the topology of the database, where it could be opened and read.
    pub fn answer(self, on_disk: Option<u64>) -> (step: RootStep)
        ensures
            step == self.next(on_disk),
    {
        if published_graph_context_provider(on_disk, self.topology) {
            RootStep::CaptureSeed(AwaitSeed {  })
        } else {
            owed()
        }
    }
}

impl AwaitSeed {
    pub open spec fn next(self, seed: SeedAnswer) -> RootStep {
        match seed {
            SeedAnswer::SameRoots => RootStep::InstallProvider(AwaitInstall {  }),
            SeedAnswer::Captured => RootStep::Plan(AwaitPlan {  }),
            _ => RootStep::Done(still_owed()),
        }
    }

    pub fn answer(self, seed: SeedAnswer) -> (step: RootStep)
        ensures
            step == self.next(seed),
    {
        match seed {
            SeedAnswer::SameRoots => RootStep::InstallProvider(AwaitInstall {  }),
            SeedAnswer::Captured => RootStep::Plan(AwaitPlan {  }),
            _ => owed(),
        }
    }
}

impl AwaitInstall {
    pub open spec fn next<E>(self, installed: WorkspaceSearchApply<(), E>) -> RootStep {
        if installed is Applied {
            RootStep::Done(quietly_done())
        } else {
            RootStep::Done(still_owed())
        }
    }

    pub fn answer<E>(self, installed: &WorkspaceSearchApply<(), E>) -> (step: RootStep)
        ensures
            step == self.next(*installed),
    {
        match installed {
            WorkspaceSearchApply::Applied(_) => done(),
            _ => owed(),
        }
    }
}

impl AwaitPlan {
    pub open spec fn next(self, epoch: u64, planned: bool) -> RootStep {
        if planned {
            RootStep::Revalidate(AwaitValidation { epoch })
        } else {
            RootStep::Done(still_owed())
        }
    }

    /// `epoch` was read before the plan was made.
    pub fn answer(self, epoch: u64, planned: bool) -> (step: RootStep)
        ensures
            step == self.next(epoch, planned),
    {
        if planned {
            RootStep::Revalidate(AwaitValidation { epoch })
        } else {
            owed()
        }
    }
}

impl AwaitValidation {
    pub open spec fn next(self, validation: ValidationAnswer) -> RootStep {
        if validation is Validated {
            RootStep::Stage(AwaitStage { epoch: self.epoch })
        } else {
            RootStep::Done(still_owed())
        }
    }

    pub fn answer(self, validation: ValidationAnswer) -> (step: RootStep)
        ensures
            step == self.next(validation),
    {
        match validation {
            ValidationAnswer::Validated => RootStep::Stage(AwaitStage { epoch: self.epoch }),
            _ => owed(),
        }
    }
}

impl AwaitStage {
    pub open spec fn next(self, stage: StageAnswer) -> RootStep {
        if stage is Staged {
            RootStep::Apply(AwaitApply { epoch: self.epoch })
        } else {
            RootStep::Done(still_owed())
        }
    }

    pub fn answer(self, stage: StageAnswer) -> (step: RootStep)
        ensures
            step == self.next(stage),
    {
        match stage {
            StageAnswer::Staged => RootStep::Apply(AwaitApply { epoch: self.epoch }),
            _ => owed(),
        }
    }
}

impl WorkspaceRootsTransitionOutcome {
    /// How the provider is installed after this outcome.
    pub open spec fn install(self) -> ProviderInstall {
        match self {
            WorkspaceRootsTransitionOutcome::Unchanged => ProviderInstall::Required,
            WorkspaceRootsTransitionOutcome::Applied { .. } => ProviderInstall::BestEffort,
            WorkspaceRootsTransitionOutcome::Superseded => ProviderInstall::Skipped,
        }
    }

    /// How the provider is installed after this outcome.
    pub fn provider_install(self) -> (install: ProviderInstall)
        ensures
            install == self.install(),
    {
        match self {
            WorkspaceRootsTransitionOutcome::Unchanged => ProviderInstall::Required,
            WorkspaceRootsTransitionOutcome::Applied { .. } => ProviderInstall::BestEffort,
            WorkspaceRootsTransitionOutcome::Superseded => ProviderInstall::Skipped,
        }
    }

    /// What the refresh reports of this outcome.
    pub open spec fn report(self) -> RootOutcome {
        match self {
            WorkspaceRootsTransitionOutcome::Unchanged => quietly_done(),
            WorkspaceRootsTransitionOutcome::Applied {
                pending_collection_embeddings,
                pending_overlay_embeddings,
                ..
            } => RootOutcome {
                handled: true,
                pending_collection_embeddings,
                pending_overlay_embeddings,
            },
            WorkspaceRootsTransitionOutcome::Superseded => still_owed(),
        }
    }
}

impl AwaitApply {
    /// What the write comes to at `current` without applying anything: superseded, where drift
    /// that concerns the roots was processed since the plan was made.
    pub open spec fn overtaken(self, current: u64) -> Option<WorkspaceRootsTransitionOutcome> {
        if current != self.epoch {
            Some(WorkspaceRootsTransitionOutcome::Superseded)
        } else {
            None
        }
    }

    /// Looks at the drift epoch once more under the lease: nothing where the staged transition
    /// is applied, and else what the write comes to without it.
    pub fn inside_fence(self, current: u64) -> (outcome: Option<WorkspaceRootsTransitionOutcome>)
        ensures
            outcome == self.overtaken(current),
    {
        if current != self.epoch {
            Some(WorkspaceRootsTransitionOutcome::Superseded)
        } else {
            None
        }
    }

    pub open spec fn next<E>(
        self,
        applied: WorkspaceSearchApply<WorkspaceRootsTransitionOutcome, E>,
    ) -> RootStep {
        match applied {
            WorkspaceSearchApply::Applied(outcome) => RootStep::Done(outcome.report()),
            _ => RootStep::Done(still_owed()),
        }
    }

    pub fn answer<E>(
        self,
        applied: &WorkspaceSearchApply<WorkspaceRootsTransitionOutcome, E>,
    ) -> (step: RootStep)
        ensures
            step == self.next(*applied),
    {
        match applied {
            WorkspaceSearchApply::Applied(outcome) => match *outcome {
                WorkspaceRootsTransitionOutcome::Unchanged => done(),
                WorkspaceRootsTransitionOutcome::Applied {
                    pending_collection_embeddings,
                    pending_overlay_embeddings,
                    ..
                } => RootStep::Done(
                    RootOutcome {
                        handled: true,
                        pending_collection_embeddings,
                        pending_overlay_embeddings,
                    },
                ),
                WorkspaceRootsTransitionOutcome::Superseded => owed(),
            },
            _ => owed(),
        }
    }
}

/// What a host answers to every question that a refresh may ask.
pub struct RootAnswers<E> {
    pub on_disk: Option<u64>,
    pub seed: SeedAnswer,
    pub installed: WorkspaceSearchApply<(), E>,
    pub epoch: u64,
    pub planned: bool,
    pub validation: ValidationAnswer,
    pub stage: StageAnswer,
    pub applied: WorkspaceSearchApply<WorkspaceRootsTransitionOutcome, E>,
}

/// The step after `step`, for a host with these answers.
pub open spec fn answered<E>(step: RootStep, answers: RootAnswers<E>) -> RootStep {
    match step {
        RootStep::OpenGraph(ask) => ask.next(answers.on_disk),
        RootStep::CaptureSeed(ask) => ask.next(answers.seed),
        RootStep::InstallProvider(ask) => ask.next(answers.installed),
        RootStep::Plan(ask) => ask.next(answers.epoch, answers.planned),
        RootStep::Revalidate(ask) => ask.next(answers.validation),
        RootStep::Stage(ask) => ask.next(answers.stage),
        RootStep::Apply(ask) => ask.next(answers.applied),
        RootStep::Done(outcome) => RootStep::Done(outcome),
    }
}

/// The outcome of a whole refresh.
pub open spec fn whole_refresh<W, E>(
    signal: GraphPublishSignal<W>,
    answers: RootAnswers<E>,
) -> RootStep {
    roots_from(signal.first_step(), answers)
}

/// The outcome of a refresh that goes on from `step`: no refresh asks more than six questions.
pub open spec fn roots_from<E>(step: RootStep, answers: RootAnswers<E>) -> RootStep {
    let step1 = answered(step, answers);
    let step2 = answered(step1, answers);
    let step3 = answered(step2, answers);
    let step4 = answered(step3, answers);
    let step5 = answered(step4, answers);
    answered(step5, answers)
}

/// The whole way to a transition is open: no drift is pending, the roots are known, the graph
/// on disk is the published one, and the engine can be asked.
pub open spec fn may_move<W, E>(signal: GraphPublishSignal<W>, answers: RootAnswers<E>) -> bool {
    &&& !signal.drift_pending
    &&& signal.workspace_roots is Some
    &&& answers.on_disk == Some(signal.topology)
}

/// A refresh ends after at most six answers. It reports itself handled exactly where no refresh
/// was asked for, where the engine had the roots and took the provider, or where a planned,
/// validated and staged transition was applied or found nothing to change. It asks for
/// embeddings only where a transition was applied, and then for exactly those that are pending.
pub proof fn a_refresh_is_handled_only_where_the_roots_are_in_place<W, E>(
    signal: GraphPublishSignal<W>,
    answers: RootAnswers<E>,
)
    ensures
        whole_refresh(signal, answers) is Done,
        ({
            let outcome = whole_refresh(signal, answers)->Done_0;
            let may_move = !signal.drift_pending && signal.workspace_roots is Some
                && answers.on_disk == Some(signal.topology);
            let staged = answers.seed is Captured && answers.planned && answers.validation
                is Validated && answers.stage is Staged;
            let applied = signal.roots_refresh_requested && may_move && staged && answers.applied
                is Applied && answers.applied->Applied_0 is Applied;
            &&& outcome.handled <==> {
                ||| !signal.roots_refresh_requested
                ||| may_move && answers.seed is SameRoots && answers.installed is Applied
                ||| may_move && staged && answers.applied is Applied && !(
                answers.applied->Applied_0 is Superseded)
            }
            &&& !outcome.handled ==> outcome == still_owed()
            &&& outcome.pending_collection_embeddings <==> applied
                && answers.applied->Applied_0->pending_collection_embeddings
            &&& outcome.pending_overlay_embeddings <==> applied
                && answers.applied->Applied_0->pending_overlay_embeddings
        }),
{
}

/// What the engine says is pending after a transition is what the refresh reports: where a refresh
/// was asked for and the way to it is open, a planned, validated and staged transition that was
/// applied is handled, and both kinds of embeddings are read off the engine's answer.
pub proof fn what_a_transition_left_pending_is_reported<W, E>(
    signal: GraphPublishSignal<W>,
    answers: RootAnswers<E>,
    collection: bool,
    overlay: bool,
)
    requires
        signal.roots_refresh_requested,
        !signal.drift_pending,
        signal.workspace_roots is Some,
        answers.on_disk == Some(signal.topology),
        answers.seed is Captured,
        answers.planned,
        answers.validation is Validated,
        answers.stage is Staged,
        answers.applied matches WorkspaceSearchApply::Applied(
            WorkspaceRootsTransitionOutcome::Applied {
                pending_collection_embeddings,
                pending_overlay_embeddings,
                ..
            },
        ) && pending_collection_embeddings == collection && pending_overlay_embeddings == overlay,
    ensures
        whole_refresh(signal, answers) matches RootStep::Done(outcome) && outcome.handled
            && outcome.pending_collection_embeddings == collection
            && outcome.pending_overlay_embeddings == overlay,
{
}

/// Drift that is processed between the plan and the write keeps the old table and the
/// obligation: the transition is not applied, and the refresh is still owed.
pub proof fn drift_across_the_preparation_keeps_the_obligation<E>(ask: AwaitApply, current: u64)
    requires
        current != ask.epoch,
    ensures
        ask.overtaken(current) == Some(WorkspaceRootsTransitionOutcome::Superseded),
        ask.next(
            WorkspaceSearchApply::<WorkspaceRootsTransitionOutcome, E>::Applied(
                ask.overtaken(current)->Some_0,
            ),
        ) == RootStep::Done(still_owed()),
        !still_owed().handled && !still_owed().pending_collection_embeddings
            && !still_owed().pending_overlay_embeddings,
{
}

/// A refresh is started only where it was asked for, no drift is pending and the roots are known,
/// and then for the published topology. One that was not asked for is done, with nothing to embed;
/// one that cannot start is still owed.
pub proof fn a_refresh_starts_where_it_can<W>(signal: GraphPublishSignal<W>, step: RootStep)
    requires
        call_ensures(refresh_search_roots_after_graph::<W>, (&signal,), step),
    ensures
        step is OpenGraph <==> signal.roots_refresh_requested && !signal.drift_pending
            && signal.workspace_roots is Some,
        step matches RootStep::OpenGraph(ask) ==> ask.topology == signal.topology,
        !(step is OpenGraph) ==> step is Done,
        step matches RootStep::Done(outcome) ==> {
            &&& outcome.handled <==> !signal.roots_refresh_requested
            &&& !outcome.pending_collection_embeddings && !outcome.pending_overlay_embeddings
        },
{
}

/// The graph on disk is the published one exactly where it was read and names the same topology,
/// and only then is the engine asked.
pub proof fn only_the_published_graph_moves_the_roots(
    ask: AwaitGraph,
    on_disk: Option<u64>,
    published: bool,
    step: RootStep,
)
    requires
        call_ensures(published_graph_context_provider, (on_disk, ask.topology), published),
        call_ensures(AwaitGraph::answer, (ask, on_disk), step),
    ensures
        published <==> (on_disk matches Some(found) && found == ask.topology),
        step is CaptureSeed <==> (on_disk matches Some(found) && found == ask.topology),
        !(step is CaptureSeed) ==> (step matches RootStep::Done(outcome) && !outcome.handled
            && !outcome.pending_collection_embeddings && !outcome.pending_overlay_embeddings),
{
}

/// An engine that has the roots is only given the provider, one that captured a seed is planned
/// for, and any other answer leaves the refresh owed.
pub proof fn the_engine_says_what_is_to_do(ask: AwaitSeed, seed: SeedAnswer, step: RootStep)
    requires
        call_ensures(AwaitSeed::answer, (ask, seed), step),
    ensures
        step is InstallProvider <==> seed is SameRoots,
        step is Plan <==> seed is Captured,
        seed is LockPoisoned || seed is EngineMissing || seed is Failed ==> (step
            matches RootStep::Done(outcome) && !outcome.handled
            && !outcome.pending_collection_embeddings && !outcome.pending_overlay_embeddings),
{
}

/// A provider that was installed ends the refresh, and any other end of that write leaves it owed.
pub proof fn an_installed_provider_ends_the_refresh<E>(
    ask: AwaitInstall,
    installed: WorkspaceSearchApply<(), E>,
    step: RootStep,
)
    requires
        call_ensures(AwaitInstall::answer::<E>, (ask, &installed), step),
    ensures
        step matches RootStep::Done(outcome) && (outcome.handled <==> installed is Applied)
            && !outcome.pending_collection_embeddings && !outcome.pending_overlay_embeddings,
{
}

/// The epoch that was read before the plan is the one that the write is held to, through every
/// step between them; a step that fails leaves the refresh owed.
pub proof fn the_epoch_of_the_plan_reaches_the_write(
    plan: AwaitPlan,
    epoch: u64,
    planned: bool,
    after_plan: RootStep,
    validate: AwaitValidation,
    validation: ValidationAnswer,
    after_validation: RootStep,
    staging: AwaitStage,
    stage: StageAnswer,
    after_stage: RootStep,
)
    requires
        call_ensures(AwaitPlan::answer, (plan, epoch, planned), after_plan),
        call_ensures(AwaitValidation::answer, (validate, validation), after_validation),
        call_ensures(AwaitStage::answer, (staging, stage), after_stage),
    ensures
        planned <==> after_plan is Revalidate,
        after_plan matches RootStep::Revalidate(ask) ==> ask.epoch == epoch,
        validation is Validated <==> after_validation is Stage,
        after_validation matches RootStep::Stage(ask) ==> ask.epoch == validate.epoch,
        stage is Staged <==> after_stage is Apply,
        after_stage matches RootStep::Apply(ask) ==> ask.epoch == staging.epoch,
        !(after_plan is Revalidate) ==> (after_plan matches RootStep::Done(outcome)
            && !outcome.handled && !outcome.pending_collection_embeddings
            && !outcome.pending_overlay_embeddings),
        !(after_validation is Stage) ==> (after_validation matches RootStep::Done(outcome)
            && !outcome.handled && !outcome.pending_collection_embeddings
            && !outcome.pending_overlay_embeddings),
        !(after_stage is Apply) ==> (after_stage matches RootStep::Done(outcome)
            && !outcome.handled && !outcome.pending_collection_embeddings
            && !outcome.pending_overlay_embeddings),
{
}

/// The write of a transition ends the refresh. It is handled where the engine applied it or found
/// nothing to change, and exactly what the engine says is pending is pending. A write under a later
/// epoch than the plan comes to nothing.
pub proof fn the_write_ends_the_refresh<E>(
    ask: AwaitApply,
    current: u64,
    inside: Option<WorkspaceRootsTransitionOutcome>,
    applied: WorkspaceSearchApply<WorkspaceRootsTransitionOutcome, E>,
    step: RootStep,
)
    requires
        call_ensures(AwaitApply::inside_fence, (ask, current), inside),
        call_ensures(AwaitApply::answer::<E>, (ask, &applied), step),
    ensures
        inside is Some <==> current != ask.epoch,
        inside matches Some(outcome) ==> outcome is Superseded,
        step is Done,
        step->Done_0.handled <==> (applied matches WorkspaceSearchApply::Applied(outcome) && !(
        outcome is Superseded)),
        applied matches WorkspaceSearchApply::Applied(
            WorkspaceRootsTransitionOutcome::Applied {
                pending_collection_embeddings,
                pending_overlay_embeddings,
                ..
            },
        ) ==> step->Done_0.pending_collection_embeddings == pending_collection_embeddings
            && step->Done_0.pending_overlay_embeddings == pending_overlay_embeddings,
        !(applied matches WorkspaceSearchApply::Applied(outcome) && outcome is Applied) ==> (
        !step->Done_0.pending_collection_embeddings && !step->Done_0.pending_overlay_embeddings),
{
}

/// The provider is installed after every transition but a superseded one. Its failure is the
/// failure of the write only where nothing else was written.
pub proof fn the_provider_follows_the_transition(
    outcome: WorkspaceRootsTransitionOutcome,
    install: ProviderInstall,
)
    requires
        call_ensures(WorkspaceRootsTransitionOutcome::provider_install, (outcome,), install),
    ensures
        install is Skipped <==> outcome is Superseded,
        install is Required <==> outcome is Unchanged,
        install is BestEffort <==> outcome is Applied,
{
}

} // verus!
