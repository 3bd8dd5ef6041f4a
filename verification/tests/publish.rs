use mcp_server::apply::{
    apply_outcome, apply_to_engine, apply_workspace_search, search_fence_outcome, ApplyPlan,
    EngineAccess, FenceOutcome, LeaseOperationError, LeaseOperationOutcome, SearchError,
    WorkspaceSearchApply,
};
use mcp_server::context_refresh::{
    build_publish_hook, refresh_search_contexts_after_graph, ContextOutcome, ContextRefreshAnswer,
    ContextRefreshStats, ContextStep, GraphPublishOutcome, HookStep, PublishPlan,
};
use mcp_server::root_transition::{
    refresh_search_roots_after_graph, GraphPublishSignal, ProviderInstall, RootOutcome, RootStep,
    SeedAnswer, StageAnswer, ValidationAnswer, WorkspaceRootsTransitionOutcome,
};

const OWED: RootOutcome = RootOutcome {
    handled: false,
    pending_collection_embeddings: false,
    pending_overlay_embeddings: false,
};
const DONE: RootOutcome = RootOutcome { handled: true, ..OWED };

fn signal() -> GraphPublishSignal<Vec<String>> {
    GraphPublishSignal {
        drift_pending: false,
        build_start_seq: 42,
        topology_changed: false,
        topology: 7,
        roots_refresh_requested: true,
        workspace_roots: Some(vec!["src/cf".to_owned()]),
    }
}

/// A host of a root transition in which everything works.
struct RootHost {
    on_disk: Option<u64>,
    seed: SeedAnswer,
    installed: WorkspaceSearchApply<(), String>,
    epoch_at_plan: u64,
    planned: bool,
    validation: ValidationAnswer,
    stage: StageAnswer,
    epoch_at_apply: u64,
    applied: WorkspaceSearchApply<WorkspaceRootsTransitionOutcome, String>,
    transitions: usize,
}

fn moved() -> WorkspaceRootsTransitionOutcome {
    WorkspaceRootsTransitionOutcome::Applied {
        removed: 1,
        rebuilt: 2,
        added: 3,
        pending_collection_embeddings: true,
        pending_overlay_embeddings: false,
    }
}

fn root_host() -> RootHost {
    RootHost {
        on_disk: Some(7),
        seed: SeedAnswer::Captured,
        installed: WorkspaceSearchApply::Applied(()),
        epoch_at_plan: 3,
        planned: true,
        validation: ValidationAnswer::Validated,
        stage: StageAnswer::Staged,
        epoch_at_apply: 3,
        applied: WorkspaceSearchApply::Applied(moved()),
        transitions: 0,
    }
}

impl RootHost {
    fn run(&mut self, signal: &GraphPublishSignal<Vec<String>>) -> RootOutcome {
        let mut step = refresh_search_roots_after_graph(signal);
        loop {
            step = match step {
                RootStep::OpenGraph(ask) => ask.answer(self.on_disk),
                RootStep::CaptureSeed(ask) => ask.answer(self.seed),
                RootStep::InstallProvider(ask) => ask.answer(&self.installed),
                RootStep::Plan(ask) => ask.answer(self.epoch_at_plan, self.planned),
                RootStep::Revalidate(ask) => ask.answer(self.validation),
                RootStep::Stage(ask) => ask.answer(self.stage),
                RootStep::Apply(ask) => match ask.inside_fence(self.epoch_at_apply) {
                    Some(outcome) => {
                        ask.answer(&WorkspaceSearchApply::<_, String>::Applied(outcome))
                    }
                    None => {
                        self.transitions += 1;
                        ask.answer(&self.applied)
                    }
                },
                RootStep::Done(outcome) => return outcome,
            };
        }
    }
}

#[test]
fn a_transition_that_goes_through_is_handled_with_its_embeddings() {
    let mut host = root_host();
    assert_eq!(
        host.run(&signal()),
        RootOutcome { pending_collection_embeddings: true, ..DONE }
    );
    assert_eq!(host.transitions, 1);
}

#[test]
fn nothing_asked_for_is_handled() {
    let quiet = GraphPublishSignal { roots_refresh_requested: false, ..signal() };
    assert_eq!(root_host().run(&quiet), DONE);
}

#[test]
fn event_between_plan_and_apply_keeps_the_old_table_and_retry_obligation() {
    let mut host = RootHost { epoch_at_apply: 4, ..root_host() };
    assert_eq!(host.run(&signal()), OWED);
    assert_eq!(host.transitions, 0, "the staged transition is not applied");
}

#[test]
fn unchanged_roots_only_install_the_provider() {
    let same = RootHost { seed: SeedAnswer::SameRoots, ..root_host() };
    let mut host = same;
    assert_eq!(host.run(&signal()), DONE);
    assert_eq!(host.transitions, 0);
    for installed in [
        WorkspaceSearchApply::TransientRefusal,
        WorkspaceSearchApply::Superseded,
        WorkspaceSearchApply::Released,
        WorkspaceSearchApply::OperationError("lock".to_owned()),
    ] {
        let mut host = RootHost { seed: SeedAnswer::SameRoots, installed, ..root_host() };
        assert_eq!(host.run(&signal()), OWED);
    }
}

#[test]
fn every_stumble_keeps_the_obligation() {
    let drifting = GraphPublishSignal { drift_pending: true, ..signal() };
    assert_eq!(root_host().run(&drifting), OWED);
    let rootless = GraphPublishSignal { workspace_roots: None, ..signal() };
    assert_eq!(root_host().run(&rootless), OWED);
    for on_disk in [None, Some(8)] {
        assert_eq!(RootHost { on_disk, ..root_host() }.run(&signal()), OWED);
    }
    for seed in [SeedAnswer::LockPoisoned, SeedAnswer::EngineMissing, SeedAnswer::Failed] {
        assert_eq!(RootHost { seed, ..root_host() }.run(&signal()), OWED);
    }
    assert_eq!(RootHost { planned: false, ..root_host() }.run(&signal()), OWED);
    for validation in [ValidationAnswer::Superseded, ValidationAnswer::Failed] {
        assert_eq!(RootHost { validation, ..root_host() }.run(&signal()), OWED);
    }
    for stage in [
        StageAnswer::LockPoisoned,
        StageAnswer::EngineMissing,
        StageAnswer::Superseded,
        StageAnswer::Failed,
    ] {
        assert_eq!(RootHost { stage, ..root_host() }.run(&signal()), OWED);
    }
    for applied in [
        WorkspaceSearchApply::TransientRefusal,
        WorkspaceSearchApply::Superseded,
        WorkspaceSearchApply::Released,
        WorkspaceSearchApply::OperationError("x".to_owned()),
        WorkspaceSearchApply::Applied(WorkspaceRootsTransitionOutcome::Superseded),
    ] {
        assert_eq!(RootHost { applied, ..root_host() }.run(&signal()), OWED);
    }
    let applied = WorkspaceSearchApply::Applied(WorkspaceRootsTransitionOutcome::Unchanged);
    assert_eq!(RootHost { applied, ..root_host() }.run(&signal()), DONE);
}

#[test]
fn the_provider_follows_the_transition() {
    assert_eq!(
        WorkspaceRootsTransitionOutcome::Unchanged.provider_install(),
        ProviderInstall::Required
    );
    assert_eq!(moved().provider_install(), ProviderInstall::BestEffort);
    assert_eq!(
        WorkspaceRootsTransitionOutcome::Superseded.provider_install(),
        ProviderInstall::Skipped
    );
}

fn contexts(
    signal: &GraphPublishSignal<Vec<String>>,
    on_disk: Option<u64>,
    refreshed: ContextRefreshAnswer,
) -> ContextOutcome {
    let mut step = refresh_search_contexts_after_graph(signal);
    loop {
        step = match step {
            ContextStep::OpenGraph(ask) => ask.answer(on_disk),
            ContextStep::Refresh(ask) => {
                assert_eq!(ask.build_start_seq, 42, "the bound of the build is handed on");
                ask.answer(&refreshed)
            }
            ContextStep::Done(outcome) => return outcome,
        };
    }
}

fn ran(cleared_embeddings: usize, outcome: FenceOutcome<()>) -> ContextRefreshAnswer {
    let stats = ContextRefreshStats {
        paths_marked: 0,
        paths_cleared: 1,
        chunks_updated: 1,
        cleared_embeddings,
    };
    ContextRefreshAnswer::Ran(stats, outcome)
}

#[test]
fn a_refresh_answers_for_what_was_done() {
    let skipped = ContextOutcome { handled: false, reembed: false };
    let done = ContextOutcome { handled: true, reembed: false };
    for topology_changed in [false, true] {
        let signal = GraphPublishSignal { topology_changed, ..signal() };
        assert_eq!(contexts(&signal, None, ran(1, FenceOutcome::Applied(()))), skipped);
        assert_eq!(contexts(&signal, Some(8), ran(1, FenceOutcome::Applied(()))), skipped);
        assert_eq!(contexts(&signal, Some(7), ran(0, FenceOutcome::Applied(()))), done);
        for failure in [
            ContextRefreshAnswer::LockPoisoned,
            ContextRefreshAnswer::EngineMissing,
            ContextRefreshAnswer::Failed,
        ] {
            assert_eq!(contexts(&signal, Some(7), failure), skipped);
        }
    }
    let drifting = GraphPublishSignal { drift_pending: true, ..signal() };
    assert_eq!(contexts(&drifting, Some(7), ran(1, FenceOutcome::Applied(()))), skipped);
}

#[test]
fn cleared_embeddings_are_asked_for_while_the_workspace_is_owned() {
    let reembed = |outcome| contexts(&signal(), Some(7), ran(5, outcome));
    assert_eq!(
        reembed(FenceOutcome::Applied(())),
        ContextOutcome { handled: true, reembed: true }
    );
    assert_eq!(
        reembed(FenceOutcome::TransientRefusal),
        ContextOutcome { handled: false, reembed: true }
    );
    for lost in [FenceOutcome::Superseded, FenceOutcome::Released] {
        assert_eq!(reembed(lost), ContextOutcome { handled: false, reembed: false });
    }
}

#[test]
fn the_hook_refreshes_roots_before_contexts() {
    let HookStep::RefreshRoots(ask) = build_publish_hook(true).publish(&signal()) else {
        panic!("roots first")
    };
    assert_eq!(ask.first, refresh_search_roots_after_graph(&signal()));
    let roots = RootOutcome {
        handled: true,
        pending_collection_embeddings: true,
        pending_overlay_embeddings: true,
    };
    let HookStep::RefreshContexts(ask) = ask.answer(roots) else { panic!("contexts second") };
    assert_eq!(ask.first, refresh_search_contexts_after_graph(&signal()));
    let contexts = ContextOutcome { handled: false, reembed: true };
    let plan = PublishPlan {
        reembed_contexts: true,
        reembed_roots: true,
        refresh_overlay: true,
        outcome: GraphPublishOutcome { topology_handled: false, roots_handled: true },
    };
    assert_eq!(ask.answer(contexts), HookStep::Done(plan));
}

#[test]
fn a_hook_without_an_overlay_retry_refreshes_no_overlay() {
    let hook = build_publish_hook(false);
    assert!(!hook.has_overlay_retry);
    assert!(build_publish_hook(true).has_overlay_retry);
    let HookStep::RefreshRoots(ask) = hook.publish(&signal()) else { panic!("roots first") };
    let roots = RootOutcome {
        handled: true,
        pending_collection_embeddings: false,
        pending_overlay_embeddings: true,
    };
    let HookStep::RefreshContexts(ask) = ask.answer(roots) else { panic!("contexts second") };
    let HookStep::Done(plan) = ask.answer(ContextOutcome { handled: true, reembed: false }) else {
        panic!("both are over")
    };
    assert!(!plan.refresh_overlay);
    assert_eq!(plan.outcome, GraphPublishOutcome { topology_handled: true, roots_handled: true });
}

#[test]
fn a_publication_during_a_drift_owes_both_refreshes() {
    let drifting = GraphPublishSignal { drift_pending: true, ..signal() };
    let HookStep::RefreshRoots(ask) = build_publish_hook(true).publish(&drifting) else {
        panic!("roots first")
    };
    assert_eq!(ask.first, RootStep::Done(OWED));
    let HookStep::RefreshContexts(ask) = ask.answer(OWED) else { panic!("contexts second") };
    let skipped = ContextOutcome { handled: false, reembed: false };
    assert_eq!(ask.first, ContextStep::Done(skipped));
    let nothing = PublishPlan {
        reembed_contexts: false,
        reembed_roots: false,
        refresh_overlay: false,
        outcome: GraphPublishOutcome { topology_handled: false, roots_handled: false },
    };
    assert_eq!(ask.answer(skipped), HookStep::Done(nothing));
}

#[test]
fn workspace_search_missing_engine_is_an_operation_error() {
    let outcome = apply_workspace_search(EngineAccess::Unpublished);
    assert!(matches!(
        outcome,
        ApplyPlan::Refuse(SearchError::Index(message))
            if message == "workspace search engine is not published"
    ));
    assert_eq!(apply_to_engine(true), ApplyPlan::Publish);
}

#[test]
fn workspace_search_poisoned_mutex_is_an_operation_error() {
    let outcome = apply_workspace_search(EngineAccess::Poisoned("another task failed".to_owned()));
    assert!(matches!(
        outcome,
        ApplyPlan::Refuse(SearchError::Index(message))
            if message.starts_with("workspace search engine lock poisoned:")
    ));
}

#[test]
fn workspace_search_flattens_callback_error_once() {
    let mut calls = 0;
    let mut operation = || {
        calls += 1;
        Err::<(), _>(SearchError::Index("store failed".to_owned()))
    };
    let outcome = match apply_workspace_search(EngineAccess::Available) {
        ApplyPlan::Publish => apply_outcome(match operation() {
            Ok(value) => LeaseOperationOutcome::Applied(value),
            Err(error) => {
                LeaseOperationOutcome::OperationError(LeaseOperationError::Operation(error))
            }
        }),
        ApplyPlan::Refuse(error) => WorkspaceSearchApply::OperationError(error),
    };
    assert_eq!(calls, 1);
    assert!(matches!(
        outcome,
        WorkspaceSearchApply::OperationError(SearchError::Index(message))
            if message == "store failed"
    ));
}

#[test]
fn fence_and_writer_report_the_same() {
    let lease = |error: &str| LeaseOperationError::Lease(error.to_owned());
    assert_eq!(
        search_fence_outcome::<(), String>(LeaseOperationOutcome::OperationError(lease("io"))),
        FenceOutcome::Applied(Err("io".to_owned()))
    );
    assert_eq!(
        apply_outcome::<(), String>(LeaseOperationOutcome::OperationError(lease("io"))),
        WorkspaceSearchApply::OperationError("io".to_owned())
    );
    assert_eq!(
        search_fence_outcome::<u8, String>(LeaseOperationOutcome::Applied(3)),
        FenceOutcome::Applied(Ok(3))
    );
    assert_eq!(
        apply_outcome::<u8, String>(LeaseOperationOutcome::Applied(3)),
        WorkspaceSearchApply::Applied(3)
    );
    assert_eq!(
        search_fence_outcome::<u8, String>(LeaseOperationOutcome::TransientRefusal),
        FenceOutcome::TransientRefusal
    );
    assert_eq!(
        apply_outcome::<u8, String>(LeaseOperationOutcome::Superseded),
        WorkspaceSearchApply::Superseded
    );
    assert_eq!(
        search_fence_outcome::<u8, String>(LeaseOperationOutcome::Superseded),
        FenceOutcome::Superseded
    );
    assert_eq!(
        apply_outcome::<u8, String>(LeaseOperationOutcome::Released),
        WorkspaceSearchApply::Released
    );
    assert_eq!(
        search_fence_outcome::<u8, String>(LeaseOperationOutcome::Released),
        FenceOutcome::Released
    );
    assert_eq!(
        apply_outcome::<u8, String>(LeaseOperationOutcome::TransientRefusal),
        WorkspaceSearchApply::TransientRefusal
    );
}
