//! Rendering the graph context of the search documents anew after a graph was published.

use crate::apply::FenceOutcome;
use crate::root_transition::{
    refresh_search_roots_after_graph, GraphPublishSignal, RootAnswers, RootOutcome, RootStep,
};
use vstd::prelude::*;

verus! {

/// What a refresh of the contexts did to the store.
#[derive(Debug, Clone, Copy, PartialEq, Eq, Structural)]
pub struct ContextRefreshStats {
    pub paths_marked: usize,
    pub paths_cleared: usize,
    pub chunks_updated: usize,
    pub cleared_embeddings: usize,
}

/// What the engine says of a refresh.
#[derive(Debug, Clone, PartialEq, Eq)]
pub enum ContextRefreshAnswer {
    LockPoisoned,
    EngineMissing,
    Failed,
    Ran(ContextRefreshStats, FenceOutcome<()>),
}

/// How the refresh of the contexts ended.
#[derive(Debug, Clone, Copy, PartialEq, Eq, Structural)]
pub struct ContextOutcome {
    /// The marks of the publication are consumed.
    pub handled: bool,
    /// Documents lost their embeddings and are to be embedded again.
    pub reembed: bool,
}

/// The next step of a refresh.
#[derive(Debug, Clone, Copy, PartialEq, Eq, Structural)]
pub enum ContextStep {
    /// Open the graph database and read its topology.
    OpenGraph(AwaitContextGraph),
    /// Render the marked documents, with the marks up to `build_start_seq`.
    Refresh(AwaitContextRefresh),
    Done(ContextOutcome),
}

#[derive(Debug, Clone, Copy, PartialEq, Eq, Structural)]
pub struct AwaitContextGraph {
    pub topology: u64,
    pub build_start_seq: i64,
    pub topology_changed: bool,
}

#[derive(Debug, Clone, Copy, PartialEq, Eq, Structural)]
pub struct AwaitContextRefresh {
    pub build_start_seq: i64,
    pub topology_changed: bool,
}

/// The refresh did not run.
pub open spec fn skipped() -> ContextOutcome {
    ContextOutcome { handled: false, reembed: false }
}

impl<W> GraphPublishSignal<W> {
    /// The first step of the refresh of the contexts.
    pub open spec fn first_context_step(&self) -> ContextStep {
        if self.drift_pending {
            ContextStep::Done(skipped())
        } else {
            ContextStep::OpenGraph(
                AwaitContextGraph {
                    topology: self.topology,
                    build_start_seq: self.build_start_seq,
                    topology_changed: self.topology_changed,
                },
            )
        }
    }
}

/// Starts the refresh of the contexts after a graph was published. While a drift is still being
/// caught up the marks are kept for the next publication.
pub fn refresh_search_contexts_after_graph<W>(signal: &GraphPublishSignal<W>) -> (step: ContextStep)
    ensures
        step == signal.first_context_step(),
{
    if signal.drift_pending {
        ContextStep::Done(ContextOutcome { handled: false, reembed: false })
    } else {
        ContextStep::OpenGraph(
            AwaitContextGraph {
                topology: signal.topology,
                build_start_seq: signal.build_start_seq,
                topology_changed: signal.topology_changed,
            },
        )
    }
}

impl AwaitContextGraph {
    pub open spec fn next(self, on_disk: Option<u64>) -> ContextStep {
        if on_disk == Some(self.topology) {
            ContextStep::Refresh(
                AwaitContextRefresh {
                    build_start_seq: self.build_start_seq,
                    topology_changed: self.topology_changed,
                },
            )
        } else {
            ContextStep::Done(skipped())
        }
    }

    /// `on_disk` is the topology of the database, where it could be opened and read.
    pub fn answer(self, on_disk: Option<u64>) -> (step: ContextStep)
        ensures
            step == self.next(on_disk),
    {
        if crate::root_transition::published_graph_context_provider(on_disk, self.topology) {
            ContextStep::Refresh(
                AwaitContextRefresh {
                    build_start_seq: self.build_start_seq,
                    topology_changed: self.topology_changed,
                },
            )
        } else {
            ContextStep::Done(ContextOutcome { handled: false, reembed: false })
        }
    }
}

impl ContextRefreshAnswer {
    /// What the refresh reports of this answer.
    pub open spec fn report(self) -> ContextOutcome {
        match self {
            ContextRefreshAnswer::Ran(stats, outcome) => ContextOutcome {
                handled: outcome is Applied,
                reembed: stats.cleared_embeddings > 0 && !(outcome is Superseded) && !(outcome
                    is Released),
            },
            _ => skipped(),
        }
    }
}

impl AwaitContextRefresh {
    pub fn answer(self, refreshed: &ContextRefreshAnswer) -> (step: ContextStep)
        ensures
            step == ContextStep::Done(refreshed.report()),
    {
        match refreshed {
            ContextRefreshAnswer::Ran(stats, outcome) => {
                let handled: bool = match outcome {
                    FenceOutcome::Applied(_) => true,
                    _ => false,
                };
                let lost: bool = match outcome {
                    FenceOutcome::Superseded => true,
                    FenceOutcome::Released => true,
                    _ => false,
                };
                ContextStep::Done(
                    ContextOutcome { handled, reembed: stats.cleared_embeddings > 0 && !lost },
                )
            },
            _ => ContextStep::Done(ContextOutcome { handled: false, reembed: false }),
        }
    }
}

/// Whether a request to embed again starts a pass: the engine is there and can embed, and an
/// embedder is configured.
pub fn kick_context_reembed(engine_embeds: Option<bool>, configured: bool) -> (starts: bool)
    ensures
        starts == (engine_embeds == Some(true) && configured),
{
    match engine_embeds {
        Some(true) => configured,
        _ => false,
    }
}

/// What the publication hook reports to the graph.
#[derive(Debug, Clone, Copy, PartialEq, Eq, Structural)]
pub struct GraphPublishOutcome {
    pub topology_handled: bool,
    pub roots_handled: bool,
}

/// What the publication hook does, in this order, once both refreshes are over.
#[derive(Debug, Clone, Copy, PartialEq, Eq, Structural)]
pub struct PublishPlan {
    pub reembed_contexts: bool,
    pub reembed_roots: bool,
    pub refresh_overlay: bool,
    pub outcome: GraphPublishOutcome,
}

/// The hook of the publications of the graph.
#[derive(Debug, Clone, Copy, PartialEq, Eq, Structural)]
pub struct PublishHook {
    /// The overlay can be warmed again.
    pub has_overlay_retry: bool,
}

/// What the publication hook does next.
#[derive(Debug, Clone, Copy, PartialEq, Eq, Structural)]
pub enum HookStep {
    /// Refresh the search roots.
    RefreshRoots(AwaitRoots),
    /// Refresh the contexts, under the roots that are now current.
    RefreshContexts(AwaitContexts),
    /// Do this and report its outcome.
    Done(PublishPlan),
}

#[derive(Debug, Clone, Copy, PartialEq, Eq, Structural)]
pub struct AwaitRoots {
    /// The first step of the refresh of the roots.
    pub first: RootStep,
    /// The first step of the refresh of the contexts that follows it.
    pub contexts: ContextStep,
    pub has_overlay_retry: bool,
}

#[derive(Debug, Clone, Copy, PartialEq, Eq, Structural)]
pub struct AwaitContexts {
    /// The first step of the refresh of the contexts.
    pub first: ContextStep,
    /// How the refresh of the roots ended.
    pub roots: RootOutcome,
    pub has_overlay_retry: bool,
}

/// The hook of a workspace with, or without, an overlay that can be warmed again.
pub fn build_publish_hook(has_overlay_retry: bool) -> (hook: PublishHook)
    ensures
        hook == (PublishHook { has_overlay_retry }),
{
    PublishHook { has_overlay_retry }
}

impl PublishHook {
    /// The first step after a publication: the roots come before the contexts.
    pub open spec fn first<W>(self, signal: GraphPublishSignal<W>) -> HookStep {
        HookStep::RefreshRoots(
            AwaitRoots {
                first: signal.first_step(),
                contexts: signal.first_context_step(),
                has_overlay_retry: self.has_overlay_retry,
            },
        )
    }

    /// Starts what follows a publication of the graph.
    pub fn publish<W>(&self, signal: &GraphPublishSignal<W>) -> (step: HookStep)
        ensures
            step == self.first(*signal),
    {
        HookStep::RefreshRoots(
            AwaitRoots {
                first: refresh_search_roots_after_graph(signal),
                contexts: refresh_search_contexts_after_graph(signal),
                has_overlay_retry: self.has_overlay_retry,
            },
        )
    }
}

impl AwaitRoots {
    pub open spec fn next(self, roots: RootOutcome) -> HookStep {
        HookStep::RefreshContexts(
            AwaitContexts {
                first: self.contexts,
                roots,
                has_overlay_retry: self.has_overlay_retry,
            },
        )
    }

    pub fn answer(self, roots: RootOutcome) -> (step: HookStep)
        ensures
            step == self.next(roots),
    {
        HookStep::RefreshContexts(
            AwaitContexts {
                first: self.contexts,
                roots,
                has_overlay_retry: self.has_overlay_retry,
            },
        )
    }
}

/// What the hook does once both refreshes are over. What has to be embedded is asked for after
/// both, so that one pass covers it all.
pub open spec fn plan_of(
    roots: RootOutcome,
    contexts: ContextOutcome,
    has_overlay_retry: bool,
) -> PublishPlan {
    PublishPlan {
        reembed_contexts: contexts.reembed,
        reembed_roots: roots.pending_collection_embeddings,
        refresh_overlay: roots.pending_overlay_embeddings && has_overlay_retry,
        outcome: GraphPublishOutcome {
            topology_handled: contexts.handled,
            roots_handled: roots.handled,
        },
    }
}

impl AwaitContexts {
    pub open spec fn next(self, contexts: ContextOutcome) -> HookStep {
        HookStep::Done(plan_of(self.roots, contexts, self.has_overlay_retry))
    }

    pub fn answer(self, contexts: ContextOutcome) -> (step: HookStep)
        ensures
            step == self.next(contexts),
    {
        HookStep::Done(
            PublishPlan {
                reembed_contexts: contexts.reembed,
                reembed_roots: self.roots.pending_collection_embeddings,
                refresh_overlay: self.roots.pending_overlay_embeddings && self.has_overlay_retry,
                outcome: GraphPublishOutcome {
                    topology_handled: contexts.handled,
                    roots_handled: self.roots.handled,
                },
            },
        )
    }
}

/// The outcome of a refresh of the contexts that goes on from `step`.
pub open spec fn contexts_from(
    step: ContextStep,
    on_disk: Option<u64>,
    refreshed: ContextRefreshAnswer,
) -> ContextOutcome {
    match step {
        ContextStep::OpenGraph(ask) => match ask.next(on_disk) {
            ContextStep::Refresh(_) => refreshed.report(),
            _ => skipped(),
        },
        ContextStep::Refresh(_) => refreshed.report(),
        ContextStep::Done(outcome) => outcome,
    }
}

/// The outcome of a whole refresh of the contexts.
pub open spec fn whole_context_refresh<W>(
    signal: GraphPublishSignal<W>,
    on_disk: Option<u64>,
    refreshed: ContextRefreshAnswer,
) -> ContextOutcome {
    contexts_from(signal.first_context_step(), on_disk, refreshed)
}

/// The plan of a whole publication: both refreshes run from the steps that the hook hands out.
pub open spec fn whole_publication<W, E>(
    hook: PublishHook,
    signal: GraphPublishSignal<W>,
    roots: RootAnswers<E>,
    on_disk: Option<u64>,
    refreshed: ContextRefreshAnswer,
) -> HookStep {
    match hook.first(signal) {
        HookStep::RefreshRoots(ask) => match crate::root_transition::roots_from(ask.first, roots) {
            RootStep::Done(outcome) => match ask.next(outcome) {
                HookStep::RefreshContexts(later) => later.next(
                    contexts_from(later.first, on_disk, refreshed),
                ),
                other => other,
            },
            _ => HookStep::RefreshRoots(ask),
        },
        other => other,
    }
}

/// A refresh reports itself handled exactly where it ran and was applied, whatever the
/// publication asked for: a skipped one keeps its obligation, whether or not the topology
/// changed.
pub proof fn a_skipped_context_refresh_is_never_handled<W>(
    signal: GraphPublishSignal<W>,
    on_disk: Option<u64>,
    refreshed: ContextRefreshAnswer,
)
    ensures
        whole_context_refresh(signal, on_disk, refreshed).handled <==> (!signal.drift_pending
            && on_disk == Some(signal.topology) && (refreshed matches ContextRefreshAnswer::Ran(
            _,
            outcome,
        ) && outcome is Applied)),
        signal.drift_pending ==> whole_context_refresh(signal, on_disk, refreshed) == skipped(),
        !skipped().handled && !skipped().reembed,
{
}

/// Documents are embedded again exactly where the refresh ran, cleared some embeddings, and this
/// process was not found to have lost the workspace: also where the write of the marks was refused
/// for now.
pub proof fn what_lost_its_embeddings_is_embedded_again<W>(
    signal: GraphPublishSignal<W>,
    on_disk: Option<u64>,
    refreshed: ContextRefreshAnswer,
)
    ensures
        whole_context_refresh(signal, on_disk, refreshed).reembed <==> (!signal.drift_pending
            && on_disk == Some(signal.topology) && (refreshed matches ContextRefreshAnswer::Ran(
            stats,
            outcome,
        ) && stats.cleared_embeddings > 0 && (outcome is Applied || outcome is TransientRefusal))),
{
}

/// Embeddings are asked for again only where the refresh cleared some and this process still
/// owns the workspace.
pub proof fn a_lost_workspace_is_not_embedded_again<W>(
    signal: GraphPublishSignal<W>,
    on_disk: Option<u64>,
    stats: ContextRefreshStats,
    outcome: FenceOutcome<()>,
)
    requires
        outcome is Superseded || outcome is Released,
    ensures
        !whole_context_refresh(signal, on_disk, ContextRefreshAnswer::Ran(stats, outcome)).reembed,
{
}

/// A publication comes to an end, and its plan is that of its two refreshes: each reports for
/// itself, what lost its embeddings is embedded again, and the overlay is warmed again exactly
/// where the new roots left it without embeddings and the hook was built for an overlay that can
/// be.
pub proof fn a_publication_answers_for_both_refreshes<W, E>(
    hook: PublishHook,
    signal: GraphPublishSignal<W>,
    roots: RootAnswers<E>,
    on_disk: Option<u64>,
    refreshed: ContextRefreshAnswer,
)
    ensures
        ({
            let of_roots = crate::root_transition::whole_refresh(signal, roots)->Done_0;
            let of_contexts = whole_context_refresh(signal, on_disk, refreshed);
            whole_publication(hook, signal, roots, on_disk, refreshed) matches HookStep::Done(plan)
                && {
                &&& plan.outcome.roots_handled == of_roots.handled
                &&& plan.outcome.topology_handled == of_contexts.handled
                &&& plan.reembed_contexts == of_contexts.reembed
                &&& plan.reembed_roots == of_roots.pending_collection_embeddings
                &&& plan.refresh_overlay <==> of_roots.pending_overlay_embeddings
                    && hook.has_overlay_retry
            }
        }),
{
    crate::root_transition::a_refresh_is_handled_only_where_the_roots_are_in_place(signal, roots);
}

/// A publication during a drift discharges nothing and embeds nothing, except that a refresh of
/// the roots that nobody asked for counts as done.
pub proof fn a_publication_during_a_drift_keeps_its_obligations<W, E>(
    hook: PublishHook,
    signal: GraphPublishSignal<W>,
    roots: RootAnswers<E>,
    on_disk: Option<u64>,
    refreshed: ContextRefreshAnswer,
)
    requires
        signal.drift_pending,
    ensures
        whole_publication(hook, signal, roots, on_disk, refreshed) == HookStep::Done(
            PublishPlan {
                reembed_contexts: false,
                reembed_roots: false,
                refresh_overlay: false,
                outcome: GraphPublishOutcome {
                    topology_handled: false,
                    roots_handled: !signal.roots_refresh_requested,
                },
            },
        ),
{
    a_publication_answers_for_both_refreshes(hook, signal, roots, on_disk, refreshed);
}

/// What the publication asks for is what the graph is opened for, and nothing is opened while a
/// drift is pending.
pub proof fn a_context_refresh_waits_for_the_drift<W>(
    signal: GraphPublishSignal<W>,
    step: ContextStep,
)
    requires
        call_ensures(refresh_search_contexts_after_graph::<W>, (&signal,), step),
    ensures
        step is OpenGraph <==> !signal.drift_pending,
        step matches ContextStep::OpenGraph(ask) ==> ask.topology == signal.topology
            && ask.build_start_seq == signal.build_start_seq && ask.topology_changed
            == signal.topology_changed,
        signal.drift_pending ==> (step matches ContextStep::Done(outcome) && !outcome.handled
            && !outcome.reembed),
{
}

/// Documents are rendered only from the published graph, and with the marks and the change of
/// topology that the publication named.
pub proof fn contexts_are_rendered_from_the_published_graph(
    ask: AwaitContextGraph,
    on_disk: Option<u64>,
    step: ContextStep,
)
    requires
        call_ensures(AwaitContextGraph::answer, (ask, on_disk), step),
    ensures
        step is Refresh <==> (on_disk matches Some(found) && found == ask.topology),
        step matches ContextStep::Refresh(next) ==> next.build_start_seq == ask.build_start_seq
            && next.topology_changed == ask.topology_changed,
        !(step is Refresh) ==> (step matches ContextStep::Done(outcome) && !outcome.handled
            && !outcome.reembed),
{
}

/// A refresh that ran is handled where its write was applied, and embeds again what lost its
/// embeddings unless the workspace was lost. One that did not run does neither.
pub proof fn a_context_refresh_reports_what_it_did(
    ask: AwaitContextRefresh,
    refreshed: ContextRefreshAnswer,
    step: ContextStep,
)
    requires
        call_ensures(AwaitContextRefresh::answer, (ask, &refreshed), step),
    ensures
        step matches ContextStep::Done(outcome) && {
            &&& outcome.handled <==> (refreshed matches ContextRefreshAnswer::Ran(_, fence) && fence
                is Applied)
            &&& outcome.reembed <==> (refreshed matches ContextRefreshAnswer::Ran(stats, fence)
                && stats.cleared_embeddings > 0 && (fence is Applied || fence is TransientRefusal))
        },
{
}

/// A pass is started exactly where there is an engine, it embeds, and an embedder is configured.
pub proof fn a_pass_is_started_where_it_can_embed(
    engine_embeds: Option<bool>,
    configured: bool,
    starts: bool,
)
    requires
        call_ensures(kick_context_reembed, (engine_embeds, configured), starts),
    ensures
        starts <==> (engine_embeds matches Some(embeds) && embeds && configured),
{
}

/// A publication refreshes the roots, then the contexts, both as the signal asks, and remembers
/// throughout whether the overlay can be warmed again.
pub proof fn a_publication_refreshes_the_roots_first<W>(
    retry: bool,
    built: PublishHook,
    hook: PublishHook,
    signal: GraphPublishSignal<W>,
    step: HookStep,
    roots: RootStep,
    contexts: ContextStep,
)
    requires
        call_ensures(build_publish_hook, (retry,), built),
        call_ensures(PublishHook::publish::<W>, (&hook, &signal), step),
        call_ensures(refresh_search_roots_after_graph::<W>, (&signal,), roots),
        call_ensures(refresh_search_contexts_after_graph::<W>, (&signal,), contexts),
    ensures
        built.has_overlay_retry == retry,
        step matches HookStep::RefreshRoots(ask) && ask.first == roots && ask.contexts == contexts
            && ask.has_overlay_retry == hook.has_overlay_retry,
{
}

/// What the two refreshes came to is what the publication comes to: each is handled or not by
/// itself, each is embedded again where it asks for it, and the overlay is warmed again where the
/// roots left it pending and it can be.
pub proof fn the_refreshes_make_up_the_publication(
    first: AwaitRoots,
    roots: RootOutcome,
    middle: HookStep,
    second: AwaitContexts,
    contexts: ContextOutcome,
    step: HookStep,
)
    requires
        call_ensures(AwaitRoots::answer, (first, roots), middle),
        call_ensures(AwaitContexts::answer, (second, contexts), step),
    ensures
        middle matches HookStep::RefreshContexts(ask) && ask.first == first.contexts && ask.roots
            == roots && ask.has_overlay_retry == first.has_overlay_retry,
        step matches HookStep::Done(plan) && {
            &&& plan.reembed_contexts == contexts.reembed
            &&& plan.reembed_roots == second.roots.pending_collection_embeddings
            &&& plan.refresh_overlay <==> second.roots.pending_overlay_embeddings
                && second.has_overlay_retry
            &&& plan.outcome.topology_handled == contexts.handled
            &&& plan.outcome.roots_handled == second.roots.handled
        },
{
}

} // verus!
