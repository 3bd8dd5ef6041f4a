use mcp_server::apply::{
    FenceOutcome, LeaseOperationError, LeaseOperationOutcome, WorkspaceSearchApply,
};
use mcp_server::context_refresh::kick_context_reembed;
use mcp_server::embed_flight::{
    EmbedClaimGuard, EmbedFlight, EmbedStatusGuard, SemanticRuntimeStatus,
};
use mcp_server::embed_pass::{
    spawn_embed_pass, EmbedResult, EmbedWorker, LeaseStanding, SwapResult, WorkerStep,
};
use mcp_server::overlay_warmup::{
    run_overlay_warmup, snapshot_answer, warmup_outcome, OverlayWarmupState, Primed,
    PublishOutcome, SnapshotAnswer, StagingAnswer, WarmupEnd, WarmupStep,
};
use mcp_server::retry_window::{Moment, Span};

const SECOND: u128 = 1_000_000_000;
const DELAY: Span = Span { nanos: SECOND / 10 };
const OWNED: LeaseStanding = LeaseStanding { superseded: false, released: false };

fn at(seconds: u128) -> Moment {
    Moment { nanos: seconds * SECOND }
}

fn span(seconds: u128) -> Span {
    Span { nanos: seconds * SECOND }
}

fn published() -> EmbedResult {
    EmbedResult::Indexed(SwapResult::Lease(LeaseOperationOutcome::Applied(())))
}

fn started(budget: Span) -> (EmbedWorker, EmbedFlight, SemanticRuntimeStatus) {
    let mut flight = EmbedFlight::new();
    let mut runtime = SemanticRuntimeStatus::Disabled;
    let worker = spawn_embed_pass(OWNED, budget, &mut flight, &mut runtime).expect("claimed");
    assert_eq!(runtime, SemanticRuntimeStatus::Indexing);
    (worker, flight, runtime)
}

fn failed(runtime: &SemanticRuntimeStatus) -> &str {
    match runtime {
        SemanticRuntimeStatus::Failed(text) => text,
        other => panic!("expected a failure, got {other:?}"),
    }
}

#[test]
fn embed_flight_is_single_flight_with_a_rerun_loop() {
    let mut flight = EmbedFlight::new();
    assert!(flight.claim(), "the first caller wins the claim");
    flight.begin_pass();
    assert!(!flight.claim(), "a concurrent caller loses and records a rerun");
    assert!(flight.finish_pass(), "a rerun requested during the pass loops the owner again");
    flight.begin_pass();
    assert!(!flight.finish_pass(), "no rerun requested → the claim is released");
    assert!(flight.claim(), "the released flight can be claimed again");
}

/// Runs passes with these results until the worker ends, and says how many it took. A request
/// comes during each pass that is marked.
fn passes(
    results: Vec<(EmbedResult, bool)>,
) -> (usize, EmbedWorker, EmbedFlight, SemanticRuntimeStatus) {
    let (mut worker, mut flight, mut runtime) = started(span(600));
    for (i, (result, requested)) in results.into_iter().enumerate() {
        let now = at(i as u128);
        assert!(worker.begin_pass(now, &mut flight, &mut runtime));
        if requested {
            assert!(!flight.claim(), "a running worker owns its flight");
        }
        if worker.end_pass(result, now, DELAY, &mut flight, &mut runtime) == WorkerStep::Exit {
            return (i + 1, worker, flight, runtime);
        }
        assert!(flight.is_in_flight(), "a worker that goes on keeps its flight");
    }
    worker.retire(&mut flight, &mut runtime);
    (usize::MAX, worker, flight, runtime)
}

#[test]
fn whatever_ends_a_worker_leaves_the_flight_free() {
    let refused = || EmbedResult::TransientRefusal;
    let broken = || EmbedResult::Failed("disk".to_owned());
    let ready = None;
    let cases = [
        (vec![(published(), false)], 1, ready),
        (vec![(published(), true), (refused(), false), (published(), false)], 3, ready),
        (
            vec![(published(), true), (broken(), false)],
            2,
            Some("background embedding failed: disk"),
        ),
        (
            vec![(refused(), false), (EmbedResult::Superseded, true)],
            2,
            Some("embedding stopped after workspace ownership was superseded"),
        ),
        (
            vec![(published(), true)],
            usize::MAX,
            Some("embedding pass ended without completing"),
        ),
    ];
    for (results, taken, failure) in cases {
        let (ran, worker, flight, runtime) = passes(results);
        assert_eq!(ran, taken);
        assert!(!flight.is_in_flight());
        assert!(!worker.claim.armed && worker.status.finished);
        match failure {
            None => assert_eq!(runtime, SemanticRuntimeStatus::Ready),
            Some(text) => assert_eq!(failed(&runtime), text),
        }
    }
}

#[test]
fn context_reembed_kick_is_single_flight() {
    let mut embed_flight = EmbedFlight::in_flight_for_test();
    let mut runtime = SemanticRuntimeStatus::Ready;
    assert!(kick_context_reembed(Some(true), true));
    assert!(spawn_embed_pass(OWNED, span(600), &mut embed_flight, &mut runtime).is_none());
    assert!(embed_flight.is_in_flight(), "the existing claim is untouched");
    assert!(
        embed_flight.rerun_pending(),
        "a kick while a pass is claimed is absorbed as a rerun, not spawned as a second pass",
    );
    assert_eq!(runtime, SemanticRuntimeStatus::Ready);
}

#[test]
fn a_kick_without_an_embedder_claims_nothing() {
    assert!(!kick_context_reembed(None, true));
    assert!(!kick_context_reembed(Some(false), true));
    assert!(!kick_context_reembed(Some(true), false));
}

#[test]
fn a_lost_lease_starts_no_worker_and_records_no_rerun() {
    for lease in [
        LeaseStanding { superseded: true, released: false },
        LeaseStanding { superseded: false, released: true },
    ] {
        let mut flight = EmbedFlight::in_flight_for_test();
        let mut runtime = SemanticRuntimeStatus::Ready;
        assert!(spawn_embed_pass(lease, span(1), &mut flight, &mut runtime).is_none());
        assert!(!flight.rerun_pending());
        assert_eq!(runtime, SemanticRuntimeStatus::Ready);
    }
}

#[test]
fn a_pass_that_publishes_ends_ready_and_frees_the_flight() {
    let (mut worker, mut flight, mut runtime) = started(span(600));
    assert!(worker.begin_pass(at(1), &mut flight, &mut runtime));
    let step = worker.end_pass(published(), at(2), span(1), &mut flight, &mut runtime);
    assert_eq!(step, WorkerStep::Exit);
    assert_eq!(runtime, SemanticRuntimeStatus::Ready);
    assert!(!flight.is_in_flight());

    // A later owner is safe from the worker that is gone.
    assert!(flight.claim());
    worker.retire(&mut flight, &mut runtime);
    assert!(flight.is_in_flight());
    assert_eq!(runtime, SemanticRuntimeStatus::Ready);
}

#[test]
fn a_request_during_a_pass_runs_it_again() {
    let (mut worker, mut flight, mut runtime) = started(span(600));
    assert!(worker.begin_pass(at(1), &mut flight, &mut runtime));
    assert!(!flight.claim());
    assert_eq!(
        worker.end_pass(published(), at(2), span(1), &mut flight, &mut runtime),
        WorkerStep::Again(None)
    );
    assert_eq!(runtime, SemanticRuntimeStatus::Indexing);
    assert!(worker.begin_pass(at(3), &mut flight, &mut runtime));
    assert_eq!(
        worker.end_pass(published(), at(4), span(1), &mut flight, &mut runtime),
        WorkerStep::Exit
    );
    assert_eq!(runtime, SemanticRuntimeStatus::Ready);
}

#[test]
fn publication_deadline_moves_runtime_to_failed() {
    let (mut worker, mut flight, mut runtime) = started(span(0));
    assert!(worker.begin_pass(at(1), &mut flight, &mut runtime));
    assert_eq!(worker.write_refused(at(1), span(1)), None, "no budget, no second try");
    let step =
        worker.end_pass(EmbedResult::TransientRefusal, at(1), span(1), &mut flight, &mut runtime);
    assert_eq!(step, WorkerStep::Exit);
    assert!(!flight.is_in_flight());
    assert!(matches!(
        &runtime,
        SemanticRuntimeStatus::Failed(message) if message.contains("retry budget exhausted")
    ));
}

#[test]
fn a_refused_write_is_tried_again_within_the_budget() {
    let (mut worker, mut flight, mut runtime) = started(span(10));
    assert!(worker.begin_pass(at(1), &mut flight, &mut runtime));
    assert_eq!(worker.write_refused(at(1), span(2)), Some(span(2)));
    assert!(worker.write_waited(at(3)));
    assert_eq!(worker.write_refused(at(9), span(4)), Some(span(2)), "cut at the deadline");
    assert!(!worker.write_waited(at(11)));
    assert_eq!(worker.write_refused(at(11), span(4)), None);
}

#[test]
fn embedding_retries_a_refusal_and_stops_at_supersession() {
    let (mut worker, mut flight, mut runtime) = started(span(10));
    assert!(worker.begin_pass(at(1), &mut flight, &mut runtime));
    let refused =
        EmbedResult::Indexed(SwapResult::Lease(LeaseOperationOutcome::TransientRefusal));
    assert_eq!(
        worker.end_pass(refused, at(1), span(3), &mut flight, &mut runtime),
        WorkerStep::Again(Some(span(3)))
    );
    assert!(flight.rerun_pending());
    assert!(worker.begin_pass(at(4), &mut flight, &mut runtime));
    let step = worker.end_pass(EmbedResult::Superseded, at(5), span(3), &mut flight, &mut runtime);
    assert_eq!(step, WorkerStep::Exit);
    assert_eq!(
        failed(&runtime),
        "embedding stopped after workspace ownership was superseded"
    );
    assert!(!flight.is_in_flight());
}

#[test]
fn a_pass_past_the_deadline_does_not_begin() {
    let (mut worker, mut flight, mut runtime) = started(span(10));
    assert!(worker.begin_pass(at(1), &mut flight, &mut runtime));
    assert!(worker.write_refused(at(1), span(2)).is_some());
    assert!(!worker.begin_pass(at(11), &mut flight, &mut runtime));
    assert_eq!(failed(&runtime), "embedding publication retry budget exhausted");
    assert!(!flight.is_in_flight());
}

#[test]
fn every_failure_has_its_text() {
    let lost = "embedding stopped after workspace ownership was superseded";
    let cases = [
        (EmbedResult::Indexed(SwapResult::EngineUnavailable), "embedding engine unavailable"),
        (
            EmbedResult::Indexed(SwapResult::EngineLockError("poisoned".to_owned())),
            "embedding engine lock error: poisoned",
        ),
        (EmbedResult::Indexed(SwapResult::Lease(LeaseOperationOutcome::Superseded)), lost),
        (EmbedResult::Indexed(SwapResult::Lease(LeaseOperationOutcome::Released)), lost),
        (
            EmbedResult::Indexed(SwapResult::Lease(LeaseOperationOutcome::OperationError(
                LeaseOperationError::Lease("disk".to_owned()),
            ))),
            "embedding publication failed: disk",
        ),
        (EmbedResult::Released, lost),
        (EmbedResult::Failed("нет сети".to_owned()), "background embedding failed: нет сети"),
    ];
    for (result, text) in cases {
        let (mut worker, mut flight, mut runtime) = started(span(10));
        assert!(worker.begin_pass(at(1), &mut flight, &mut runtime));
        assert!(!flight.claim());
        let step = worker.end_pass(result, at(2), span(1), &mut flight, &mut runtime);
        assert_eq!(step, WorkerStep::Exit, "{text}");
        assert_eq!(failed(&runtime), text);
        assert!(!flight.is_in_flight(), "{text}");
    }
}

#[test]
fn a_worker_that_dies_reports_a_failure_and_frees_the_flight() {
    let (mut worker, mut flight, mut runtime) = started(span(10));
    assert!(worker.begin_pass(at(1), &mut flight, &mut runtime));
    worker.retire(&mut flight, &mut runtime);
    assert_eq!(failed(&runtime), "embedding pass ended without completing");
    assert!(!flight.is_in_flight());

    let (mut worker, mut flight, mut runtime) = started(span(10));
    worker.spawn_failed("no threads", &mut flight, &mut runtime);
    assert_eq!(failed(&runtime), "could not spawn embedding thread: no threads");
    assert!(!flight.is_in_flight());
    assert!(!worker.claim.armed && worker.status.finished);
}

#[test]
fn guards_act_only_while_they_are_set() {
    let mut flight = EmbedFlight::in_flight_for_test();
    let mut claim = EmbedClaimGuard::new();
    claim.disarm();
    claim.on_drop(&mut flight);
    assert!(flight.is_in_flight());
    EmbedClaimGuard::new().on_drop(&mut flight);
    assert!(!flight.is_in_flight());

    let mut runtime = SemanticRuntimeStatus::Ready;
    let mut status = EmbedStatusGuard::new();
    status.finish();
    status.on_drop(&mut runtime);
    assert_eq!(runtime, SemanticRuntimeStatus::Ready);
    EmbedStatusGuard::new().on_drop(&mut runtime);
    assert_eq!(failed(&runtime), "embedding pass ended without completing");
}

#[test]
fn warmup_outcome_carries_the_exact_numbers() {
    match warmup_outcome(true, 0, 0, 2, 1, 2, false) {
        OverlayWarmupState::Incomplete { unreadable, canonical_fallbacks, read_failures, .. } => {
            assert_eq!((unreadable, canonical_fallbacks, read_failures), (2, 1, 2))
        }
        other => panic!("expected Incomplete, got {other:?}"),
    }
    assert!(matches!(
        warmup_outcome(true, 0, 0, 0, 0, 1, false),
        OverlayWarmupState::Incomplete { read_failures: 1, .. }
    ));
    assert!(matches!(
        warmup_outcome(true, 0, 0, 0, 0, 0, false),
        OverlayWarmupState::NoLocalDiffs
    ));
    assert!(matches!(
        warmup_outcome(false, 2, 5, 0, 0, 0, false),
        OverlayWarmupState::Synced { overlay_files: 2, embedded: 5 }
    ));
    assert!(matches!(
        warmup_outcome(false, 2, 5, 0, 0, 0, true),
        OverlayWarmupState::Incomplete { persist_failed: true, .. }
    ));
}

const NOTHING_TO_EMBED: Primed =
    Primed { embedded: 0, scan_unreadable: 0, scan_canonical_fallbacks: 0 };

/// An engine that takes whatever it is handed; it counts what reaches it.
struct WarmupHost {
    primed: Primed,
    /// The answers of the publication, last first.
    publications: Vec<WorkspaceSearchApply<PublishOutcome, String>>,
    embeddings: usize,
    published: usize,
}

impl WarmupHost {
    fn run(
        &mut self,
        state: &mut OverlayWarmupState,
        keep_going: &mut dyn FnMut() -> bool,
        retry: &mut dyn FnMut() -> bool,
    ) -> WarmupEnd {
        let mut step = run_overlay_warmup(SnapshotAnswer::Captured, state);
        loop {
            step = match step {
                WarmupStep::Prime(ask) => {
                    self.embeddings += 1;
                    ask.answer(Ok(FenceOutcome::Applied(self.primed)), state)
                }
                WarmupStep::CheckBeforeStaging(ask) => ask.answer(keep_going(), state),
                WarmupStep::Stage(ask) => ask.answer(StagingAnswer::Staged, state),
                WarmupStep::CheckBeforePublishing(ask) => ask.answer(keep_going()),
                WarmupStep::Publish(ask) => {
                    self.published += 1;
                    let outcome = self.publications.pop().expect("another publication");
                    ask.answer(outcome, state)
                }
                WarmupStep::AskRetry(ask) => ask.answer(retry()),
                WarmupStep::Done(end) => return end,
            };
        }
    }
}

fn host(publications: Vec<WorkspaceSearchApply<PublishOutcome, String>>) -> WarmupHost {
    WarmupHost { primed: NOTHING_TO_EMBED, publications, embeddings: 0, published: 0 }
}

fn applied(overlay_files: usize, unread_keys: usize, gate_deferred: usize) -> PublishOutcome {
    PublishOutcome::Applied {
        gate_deferred,
        persist_ok: true,
        overlay_files,
        deleted_files: 0,
        unread_keys,
    }
}

#[test]
fn a_stopped_empty_embed_pass_does_not_publish() {
    let mut state = OverlayWarmupState::Pending;
    let mut host = host(vec![]);
    let end = host.run(&mut state, &mut || false, &mut || false);
    assert_eq!(host.published, 0, "a stopped pass publishes nothing");
    assert_eq!(end, WorkspaceSearchApply::Released);
    assert_eq!(state, OverlayWarmupState::Failed("workspace ownership lost at publish".to_owned()));
}

#[test]
fn a_stop_after_the_precheck_still_blocks_the_publication() {
    let mut state = OverlayWarmupState::Pending;
    let mut host = host(vec![]);
    let mut calls = 0;
    let mut keep_going = || {
        calls += 1;
        calls == 1
    };
    let end = host.run(&mut state, &mut keep_going, &mut || false);
    assert_eq!(host.published, 0, "the post-lock re-check must stop the publication");
    assert_eq!(end, WorkspaceSearchApply::Released);
    assert_eq!(state, OverlayWarmupState::Pending);
}

#[test]
fn a_refused_publication_is_tried_again_without_embedding_again() {
    let mut state = OverlayWarmupState::Pending;
    let mut host = host(vec![
        WorkspaceSearchApply::Applied(applied(2, 0, 0)),
        WorkspaceSearchApply::TransientRefusal,
        WorkspaceSearchApply::TransientRefusal,
    ]);
    host.primed = Primed { embedded: 7, ..NOTHING_TO_EMBED };
    let end = host.run(&mut state, &mut || true, &mut || true);
    let synced = OverlayWarmupState::Synced { overlay_files: 2, embedded: 7 };
    assert_eq!(end, WorkspaceSearchApply::Applied(synced.clone()));
    assert_eq!(state, synced);
    assert_eq!((host.embeddings, host.published), (1, 3));
}

#[test]
fn a_refusal_that_is_not_retried_leaves_the_state() {
    let mut state = OverlayWarmupState::NoLocalDiffs;
    let mut host = host(vec![WorkspaceSearchApply::TransientRefusal]);
    let end = host.run(&mut state, &mut || true, &mut || false);
    assert_eq!(end, WorkspaceSearchApply::TransientRefusal);
    assert_eq!(state, OverlayWarmupState::NoLocalDiffs);
}

#[test]
fn unread_and_deferred_keys_count_as_read_failures() {
    let mut state = OverlayWarmupState::Pending;
    let mut host = host(vec![WorkspaceSearchApply::Applied(applied(0, 2, 3))]);
    host.run(&mut state, &mut || true, &mut || false);
    assert_eq!(
        state,
        OverlayWarmupState::Incomplete {
            unreadable: 0,
            canonical_fallbacks: 0,
            read_failures: 5,
            persist_failed: false
        }
    );
}

#[test]
fn publications_end_as_they_are_told() {
    let lost = OverlayWarmupState::Failed("workspace ownership lost at publish".to_owned());
    let cases = [
        (
            WorkspaceSearchApply::Applied(PublishOutcome::Superseded),
            WorkspaceSearchApply::Applied(OverlayWarmupState::Superseded),
            OverlayWarmupState::Superseded,
        ),
        (WorkspaceSearchApply::Superseded, WorkspaceSearchApply::Superseded, lost),
        (
            WorkspaceSearchApply::Released,
            WorkspaceSearchApply::Released,
            OverlayWarmupState::Pending,
        ),
        (
            WorkspaceSearchApply::OperationError("диск".to_owned()),
            WorkspaceSearchApply::OperationError("диск".to_owned()),
            OverlayWarmupState::Failed("диск".to_owned()),
        ),
    ];
    for (published, expected, recorded) in cases {
        let mut state = OverlayWarmupState::Pending;
        let end = host(vec![published]).run(&mut state, &mut || true, &mut || false);
        assert_eq!(end, expected);
        assert_eq!(state, recorded);
    }
}

#[test]
fn a_warmup_without_what_it_needs_says_so() {
    let text = |text: &str| text.to_owned();
    let cases = [
        (
            SnapshotAnswer::NoEmbedder,
            WorkspaceSearchApply::Applied(OverlayWarmupState::Skipped(text(
                "no embedder configured",
            ))),
            OverlayWarmupState::Skipped(text("no embedder configured")),
        ),
        (
            SnapshotAnswer::NoWorkspaceRoot,
            WorkspaceSearchApply::Applied(OverlayWarmupState::Skipped(text("no workspace root"))),
            OverlayWarmupState::Skipped(text("no workspace root")),
        ),
        (
            SnapshotAnswer::EngineMissing,
            WorkspaceSearchApply::OperationError(text("engine unavailable")),
            OverlayWarmupState::Skipped(text("engine unavailable")),
        ),
        (
            SnapshotAnswer::LockError(text("poisoned")),
            WorkspaceSearchApply::OperationError(text("engine lock error: poisoned")),
            OverlayWarmupState::Failed(text("engine lock error: poisoned")),
        ),
        (
            SnapshotAnswer::Failed(text("cache")),
            WorkspaceSearchApply::OperationError(text("cache")),
            OverlayWarmupState::Failed(text("cache")),
        ),
    ];
    for (snapshot, end, recorded) in cases {
        let mut state = OverlayWarmupState::Pending;
        assert_eq!(run_overlay_warmup(snapshot, &mut state), WarmupStep::Done(end));
        assert_eq!(state, recorded);
    }
}

#[test]
fn the_first_thing_that_a_warmup_lacks_decides() {
    let failed = |text: &str| Err::<(), String>(text.to_owned());
    assert_eq!(snapshot_answer(true, true, Ok(()), Ok(())), SnapshotAnswer::Captured);
    assert_eq!(
        snapshot_answer(false, false, failed("cache"), failed("baseline")),
        SnapshotAnswer::NoEmbedder
    );
    assert_eq!(
        snapshot_answer(true, false, failed("cache"), failed("baseline")),
        SnapshotAnswer::NoWorkspaceRoot
    );
    assert_eq!(
        snapshot_answer(true, true, failed("cache"), failed("baseline")),
        SnapshotAnswer::Failed("cache".to_owned())
    );
    assert_eq!(
        snapshot_answer(true, true, Ok(()), failed("baseline")),
        SnapshotAnswer::Failed("baseline".to_owned())
    );
}

#[test]
fn a_warmup_that_cannot_be_primed_or_staged_ends() {
    let text = |text: &str| text.to_owned();
    let primed = |answer| {
        let mut state = OverlayWarmupState::Pending;
        match run_overlay_warmup(SnapshotAnswer::Captured, &mut state) {
            WarmupStep::Prime(ask) => (ask.answer(answer, &mut state), state),
            other => panic!("expected to prime, got {other:?}"),
        }
    };
    let lost = OverlayWarmupState::Failed(text("workspace ownership lost at publish"));
    assert_eq!(
        primed(Ok(FenceOutcome::TransientRefusal)),
        (WarmupStep::Done(WorkspaceSearchApply::TransientRefusal), OverlayWarmupState::Pending)
    );
    assert_eq!(
        primed(Ok(FenceOutcome::Superseded)),
        (WarmupStep::Done(WorkspaceSearchApply::Superseded), lost)
    );
    assert_eq!(
        primed(Ok(FenceOutcome::Released)),
        (WarmupStep::Done(WorkspaceSearchApply::Released), OverlayWarmupState::Pending)
    );
    assert_eq!(
        primed(Err(text("scan"))),
        (
            WarmupStep::Done(WorkspaceSearchApply::OperationError(text("scan"))),
            OverlayWarmupState::Failed(text("scan"))
        )
    );

    let staged = |answer| {
        let mut state = OverlayWarmupState::Pending;
        let (step, _) = primed(Ok(FenceOutcome::Applied(NOTHING_TO_EMBED)));
        let WarmupStep::CheckBeforeStaging(ask) = step else { panic!("{step:?}") };
        let WarmupStep::Stage(ask) = ask.answer(true, &mut state) else { panic!("stage") };
        (ask.answer(answer, &mut state), state)
    };
    assert_eq!(
        staged(StagingAnswer::EngineMissing),
        (
            WarmupStep::Done(WorkspaceSearchApply::OperationError(text("engine unavailable"))),
            OverlayWarmupState::Pending
        )
    );
    assert_eq!(
        staged(StagingAnswer::LockError(text("x"))),
        (
            WarmupStep::Done(WorkspaceSearchApply::OperationError(text("engine lock error: x"))),
            OverlayWarmupState::Pending
        )
    );
    assert_eq!(
        staged(StagingAnswer::Failed(text("y"))),
        (
            WarmupStep::Done(WorkspaceSearchApply::OperationError(text("y"))),
            OverlayWarmupState::Failed(text("y"))
        )
    );
}

/// An embedding server that counts its calls, behind a fence that refuses its first entries.
struct FencedEmbedding {
    preflight_refusals: usize,
    publication_refusals: usize,
    calls: usize,
    published: usize,
    clock: u128,
}

impl FencedEmbedding {
    /// Enters a fence, waiting where the worker waits; false where it gives the write up.
    fn enter(&mut self, worker: &mut EmbedWorker, publication: bool) -> bool {
        loop {
            let refusals = if publication {
                &mut self.publication_refusals
            } else {
                &mut self.preflight_refusals
            };
            if *refusals == 0 {
                return true;
            }
            *refusals -= 1;
            let Some(wait) = worker.write_refused(Moment { nanos: self.clock }, DELAY) else {
                return false;
            };
            self.clock += wait.nanos;
            if !worker.write_waited(Moment { nanos: self.clock }) {
                return false;
            }
        }
    }

    /// One pass: the fence is asked before the network call and again for what came back.
    fn pass(&mut self, worker: &mut EmbedWorker) -> EmbedResult {
        if !self.enter(worker, false) {
            return EmbedResult::TransientRefusal;
        }
        self.calls += 1;
        if !self.enter(worker, true) {
            return EmbedResult::TransientRefusal;
        }
        self.published += 1;
        published()
    }

    fn run(&mut self, budget: Span) -> (SemanticRuntimeStatus, EmbedFlight) {
        let (mut worker, mut flight, mut runtime) = started(budget);
        while worker.begin_pass(Moment { nanos: self.clock }, &mut flight, &mut runtime) {
            let result = self.pass(&mut worker);
            let now = Moment { nanos: self.clock };
            match worker.end_pass(result, now, DELAY, &mut flight, &mut runtime) {
                WorkerStep::Exit => break,
                WorkerStep::Again(wait) => self.clock += wait.map_or(0, |wait| wait.nanos),
            }
        }
        (runtime, flight)
    }
}

#[test]
fn failed_typed_preflight_makes_zero_network_calls() {
    let mut server = FencedEmbedding {
        preflight_refusals: 1,
        publication_refusals: 0,
        calls: 0,
        published: 0,
        clock: 0,
    };
    let (runtime, flight) = server.run(span(0));
    assert!(!flight.is_in_flight());
    assert_eq!(server.calls, 0);
    assert!(matches!(
        &runtime,
        SemanticRuntimeStatus::Failed(message) if message.contains("retry budget exhausted")
    ));
}

#[test]
fn prepared_vectors_survive_transient_publish_without_second_call() {
    let mut server = FencedEmbedding {
        preflight_refusals: 0,
        publication_refusals: 1,
        calls: 0,
        published: 0,
        clock: 0,
    };
    let (runtime, flight) = server.run(span(1));
    assert!(!flight.is_in_flight());
    assert_eq!(server.calls, 1);
    assert_eq!(runtime, SemanticRuntimeStatus::Ready);
    assert_eq!(server.published, 1);
}
