use mcp_server::acquire::{
    acquire_engine_within, engine_lock_poisoned_error, try_acquire_engine, AcquireFailure,
    AcquireStep, AcquireWait, LockAttempt,
};
use mcp_server::docs::{
    engine_guard, find_docs, search_docs, semantic_not_available, unless_withdrawn, DocsAnswer,
    DocsEmbedding, DocsEngine, FindStep, SearchStep,
};
use mcp_server::embed_flight::SemanticRuntimeStatus;
use mcp_server::error::{McpError, INTERNAL_ERROR, INVALID_PARAMS};
use mcp_server::hybrid::{
    assemble_code_response, hits_budget, hybrid_code, hybrid_code_cancellable, hybrid_fetch,
    Degradation, HybridAnswer, HybridStep, MODALITY_LEGEND,
};
use mcp_server::lexical::{lexical_code_hits, LexicalEngine, LexicalStep};
use mcp_server::refill::{
    merge_direct_with_refill, refill_under_overlay, resolved_snapshot, try_direct_lexical_code,
    try_direct_lexical_code_no_overlay, BaselineCall, BaselineError, DirectResult, DirectStep,
    Merged, RefillPlan, RefillStep,
};
use mcp_server::retry_window::Span;
use mcp_server::search_types::{
    CodeHits, SearchFailure, SearchScope, SemanticUnavailable, WorkspaceSearchMode,
};
use mcp_server::semantic::{
    resolve_direct_semantic, semantic_code_hits, DirectResolve, EmbedAnswer, ResolvedBaseline,
    SemanticEngine, SemanticStep,
};
use std::sync::Mutex;
use tokio_util::sync::CancellationToken;

const MILLI: u128 = 1_000_000;

type Hits = Result<CodeHits<String, String>, SearchFailure>;

fn local() -> SearchScope {
    SearchScope { mode: WorkspaceSearchMode::SqliteLocal, external: false }
}

fn terminal() -> McpError {
    McpError {
        code: INVALID_PARAMS,
        message: "the snapshot is gone".to_owned(),
        reason_code: Some("baseline_expired".to_owned()),
    }
}

fn text(text: &str) -> String {
    text.to_owned()
}

/// Waits for a lock on a clock that moves with every sleep.
fn wait_for(
    lock: &Mutex<Option<u8>>,
    cancel: &CancellationToken,
    wait: AcquireWait,
) -> (AcquireStep, u128) {
    let mut elapsed: u128 = 0;
    let mut step = wait.look(cancel.is_cancelled());
    loop {
        step = match step {
            AcquireStep::TryLock(ask) => {
                let attempt = match lock.try_lock() {
                    Ok(_) => LockAttempt::Taken,
                    Err(std::sync::TryLockError::Poisoned(_)) => LockAttempt::Poisoned,
                    Err(std::sync::TryLockError::WouldBlock) => LockAttempt::WouldBlock,
                };
                ask.tried(attempt, Span { nanos: elapsed })
            }
            AcquireStep::Sleep(wait, span) => {
                elapsed += span.nanos;
                wait.look(cancel.is_cancelled())
            }
            end => return (end, elapsed),
        };
    }
}

#[test]
fn acquire_engine_times_out_when_the_lock_stays_held() {
    let engine: Mutex<Option<u8>> = Mutex::new(None);
    let held = engine.lock().unwrap();
    let cap = 150 * MILLI;
    let (outcome, waited) = wait_for(
        &engine,
        &CancellationToken::new(),
        acquire_engine_within(Span { nanos: cap }, Span { nanos: 10 * MILLI }),
    );
    drop(held);

    assert!(matches!(outcome, AcquireStep::Failed(AcquireFailure::TimedOut)));
    assert!(waited >= cap, "must wait out the cap before giving up: {waited:?}");
}

#[test]
fn a_pre_cancelled_request_never_takes_a_free_lock() {
    let engine: Mutex<Option<u8>> = Mutex::new(None);
    let cancel = CancellationToken::new();
    cancel.cancel();
    let wait =
        acquire_engine_within(Span { nanos: 2000 * MILLI }, Span { nanos: 10 * MILLI });
    let (outcome, waited) = wait_for(&engine, &cancel, wait);
    assert!(matches!(outcome, AcquireStep::Failed(AcquireFailure::Cancelled)));
    assert_eq!(waited, 0);
}

#[test]
fn a_free_lock_is_taken_at_once() {
    let engine: Mutex<Option<u8>> = Mutex::new(None);
    let (outcome, waited) = wait_for(&engine, &CancellationToken::new(), try_acquire_engine());
    assert_eq!((outcome, waited), (AcquireStep::Acquired, 0));
}

#[test]
fn the_usual_patience_is_thirty_seconds_in_steps_of_twenty_five_milliseconds() {
    let wait = try_acquire_engine();
    assert_eq!(wait.max_wait.nanos, 30_000 * MILLI);
    assert_eq!(wait.poll.nanos, 25 * MILLI);
    let AcquireStep::TryLock(ask) = wait.look(false) else { panic!("a try") };
    assert_eq!(
        ask.tried(LockAttempt::WouldBlock, Span { nanos: 29_999 * MILLI }),
        AcquireStep::Sleep(wait, Span { nanos: 25 * MILLI })
    );
    assert_eq!(
        ask.tried(LockAttempt::Poisoned, Span { nanos: 0 }),
        AcquireStep::Failed(AcquireFailure::Poisoned)
    );
    let error = engine_lock_poisoned_error();
    assert_eq!(error.code, INTERNAL_ERROR);
    assert!(error.message.starts_with("search engine lock is poisoned"));
}

/// Waits on a lock whose holder and whose caller do what they do at given moments.
fn wait_on(
    wait: AcquireWait,
    attempt: impl Fn(u128) -> LockAttempt,
    cancelled: impl Fn(u128) -> bool,
) -> (AcquireStep, u128) {
    let mut elapsed: u128 = 0;
    let mut step = wait.look(cancelled(elapsed));
    loop {
        step = match step {
            AcquireStep::TryLock(ask) => ask.tried(attempt(elapsed), Span { nanos: elapsed }),
            AcquireStep::Sleep(wait, span) => {
                elapsed += span.nanos;
                wait.look(cancelled(elapsed))
            }
            end => return (end, elapsed),
        };
    }
}

#[test]
fn try_acquire_engine_queues_until_the_lock_frees() {
    let hold = 300 * MILLI;
    let held = |elapsed| if elapsed < hold { LockAttempt::WouldBlock } else { LockAttempt::Taken };
    let (outcome, waited) = wait_on(try_acquire_engine(), held, |_| false);
    assert_eq!(outcome, AcquireStep::Acquired, "acquire must succeed once the lock frees");
    assert!(waited >= hold / 2, "acquire returned too fast to have queued: {waited:?}");
}

#[test]
fn a_lock_that_never_frees_is_given_up_at_the_look_that_fills_the_patience() {
    for (max_wait, poll, looks) in [(30_000, 25, 1201), (100, 30, 5), (0, 10, 1)] {
        let tries = std::cell::Cell::new(0);
        let wait = acquire_engine_within(
            Span { nanos: max_wait * MILLI },
            Span { nanos: poll * MILLI },
        );
        let never = |_| {
            tries.set(tries.get() + 1);
            LockAttempt::WouldBlock
        };
        let (outcome, waited) = wait_on(wait, never, |_| false);
        assert_eq!(outcome, AcquireStep::Failed(AcquireFailure::TimedOut));
        assert_eq!((tries.get(), waited), (looks, (looks - 1) as u128 * poll * MILLI));
    }
}

#[test]
fn acquire_engine_reports_poison_immediately() {
    let wait =
        acquire_engine_within(Span { nanos: 30_000 * MILLI }, Span { nanos: 10 * MILLI });
    let (outcome, waited) = wait_on(wait, |_| LockAttempt::Poisoned, |_| false);
    assert!(matches!(outcome, AcquireStep::Failed(AcquireFailure::Poisoned)));
    assert!(waited < 1000 * MILLI, "poison must not block on the cap");
}

#[test]
fn acquire_engine_stops_waiting_when_the_request_is_cancelled() {
    let wait =
        acquire_engine_within(Span { nanos: 2000 * MILLI }, Span { nanos: 10 * MILLI });
    let (outcome, waited) =
        wait_on(wait, |_| LockAttempt::WouldBlock, |elapsed| elapsed >= 50 * MILLI);
    assert!(
        matches!(outcome, AcquireStep::Failed(AcquireFailure::Cancelled)),
        "a cancelled wait acquires nothing"
    );
    assert!(
        waited < 500 * MILLI,
        "the wait must end at the cancellation, not at the cap: {waited:?}"
    );
}

/// Merges a baseline under an overlay that hides some of its files.
fn refilled(baseline: &[&str], hidden: &[&str], limit: usize) -> (DirectResult<String>, Vec<usize>) {
    let mut requested = Vec::new();
    let plan = RefillPlan { limit, initial_window: 3 * limit, max_window: 12 * limit, max_rounds: 4 };
    let mut step = refill_under_overlay(true, plan);
    loop {
        step = match step {
            RefillStep::Fetch(ask) => {
                requested.push(ask.window);
                let fetched: Vec<&str> = baseline.iter().take(ask.window).copied().collect();
                let best: Vec<String> = fetched
                    .iter()
                    .filter(|path| !hidden.contains(path))
                    .take(limit)
                    .map(|path| path.to_string())
                    .collect();
                ask.answer(false, Ok(Merged { baseline_count: fetched.len(), best }))
            }
            RefillStep::Done(result) => return (result, requested),
        };
    }
}

const HIDDEN: [&str; 9] = [
    "src/hidden1.bsl",
    "src/hidden2.bsl",
    "src/hidden3.bsl",
    "src/hidden4.bsl",
    "src/hidden5.bsl",
    "src/hidden6.bsl",
    "src/hidden7.bsl",
    "src/hidden8.bsl",
    "src/hidden9.bsl",
];

fn hidden_then_visible() -> Vec<&'static str> {
    let mut baseline = HIDDEN.to_vec();
    baseline.extend(["src/visible1.bsl", "src/visible2.bsl", "src/visible3.bsl"]);
    baseline
}

#[test]
fn direct_lexical_refill_recovers_results_hidden_by_overlay() {
    let (result, requested_limits) = refilled(&hidden_then_visible(), &HIDDEN, 3);
    let DirectResult::Found(hits) = result else {
        panic!("expected lexical refill to produce hits");
    };
    assert_eq!(hits.len(), 3);
    assert_eq!(hits, vec!["src/visible1.bsl", "src/visible2.bsl", "src/visible3.bsl"]);
    assert_eq!(requested_limits, vec![9, 18]);
}

#[test]
fn direct_semantic_refill_recovers_results_hidden_by_overlay() {
    let (result, requested_limits) = refilled(&hidden_then_visible(), &HIDDEN, 3);
    let DirectResult::Found(hits) = result else {
        panic!("expected semantic refill to produce hits");
    };
    assert_eq!(hits.len(), 3);
    assert_eq!(
        hits.iter().map(|hit| hit.as_str()).collect::<Vec<_>>(),
        vec!["src/visible1.bsl", "src/visible2.bsl", "src/visible3.bsl"]
    );
    assert_eq!(requested_limits, vec![9, 18]);
}

#[test]
fn a_refill_stops_at_its_largest_window() {
    let baseline: Vec<String> = (0..100).map(|i| format!("h{i}")).collect();
    let all: Vec<&str> = baseline.iter().map(String::as_str).collect();
    let (result, requested) = refilled(&all, &all, 3);
    assert_eq!(result, DirectResult::Found(vec![]));
    assert_eq!(requested, vec![9, 18, 36]);
}

#[test]
fn a_refill_stops_where_the_baseline_has_no_more() {
    let (result, requested) = refilled(&["a", "b"], &["a"], 3);
    assert_eq!(result, DirectResult::Found(vec![text("b")]));
    assert_eq!(requested, vec![9]);
}

#[test]
fn a_refill_ends_with_the_call_that_fails() {
    let plan = RefillPlan { limit: 1, initial_window: 3, max_window: 12, max_rounds: 2 };
    let ask = |cancelled, fetched: Result<Merged<String>, BaselineCall<BaselineError>>| {
        let RefillStep::Fetch(ask) = merge_direct_with_refill::<String>(plan) else { panic!() };
        ask.answer(cancelled, fetched)
    };
    let empty = || Ok(Merged { baseline_count: 3, best: vec![] });
    assert_eq!(ask(true, empty()), RefillStep::Done(DirectResult::Cancelled));
    assert_eq!(
        ask(false, Err(BaselineCall::Withdrawn)),
        RefillStep::Done(DirectResult::Cancelled)
    );
    assert_eq!(
        ask(false, Err(BaselineCall::Failed(BaselineError::Transient))),
        RefillStep::Done(DirectResult::Unavailable)
    );
    assert_eq!(
        ask(false, Err(BaselineCall::Failed(BaselineError::Terminal(terminal())))),
        RefillStep::Done(DirectResult::Terminal(terminal()))
    );
    let RefillStep::Fetch(second) = ask(false, empty()) else { panic!("asks again") };
    assert_eq!((second.window, second.previous_count, second.rounds_left), (6, 3, 1));
    assert_eq!(
        second.answer(false, Ok(Merged { baseline_count: 6, best: vec![text("last")] })),
        RefillStep::Done(DirectResult::Found(vec![text("last")]))
    );
    let none = RefillPlan { max_rounds: 0, ..plan };
    assert_eq!(
        merge_direct_with_refill::<String>(none),
        RefillStep::Done(DirectResult::Found(vec![]))
    );
    assert_eq!(
        refill_under_overlay::<String>(false, plan),
        RefillStep::Done(DirectResult::Unavailable)
    );
}

#[test]
fn a_snapshot_is_resolved_or_the_search_ends() {
    let resolve = |resolution| resolved_snapshot::<u8, String>(resolution);
    assert_eq!(resolve(Ok(Some(4))), Ok(4));
    assert_eq!(resolve(Ok(None)), Err(DirectResult::Unavailable));
    assert_eq!(resolve(Err(BaselineCall::Withdrawn)), Err(DirectResult::Cancelled));
    assert_eq!(
        try_direct_lexical_code::<u8, String>(Ok(Some(4))),
        DirectStep::QueryOverlay(4)
    );
    assert_eq!(
        try_direct_lexical_code::<u8, String>(Err(BaselineCall::Failed(BaselineError::Terminal(
            terminal()
        )))),
        DirectStep::Done(DirectResult::Terminal(terminal()))
    );
    assert_eq!(
        try_direct_lexical_code_no_overlay(Ok(vec![1, 2])),
        DirectResult::Found(vec![1, 2])
    );
    assert_eq!(
        try_direct_lexical_code_no_overlay::<u8>(Err(BaselineCall::Failed(
            BaselineError::Transient
        ))),
        DirectResult::Unavailable
    );
}

/// A host of a lexical search.
struct LexicalHost {
    gates: Result<(), McpError>,
    engine: Result<Option<LexicalEngine<String>>, AcquireFailure>,
    alone: DirectResult<String>,
    direct: DirectResult<String>,
    found: Result<Vec<String>, String>,
    local_searches: usize,
}

fn lexical_host() -> LexicalHost {
    LexicalHost {
        gates: Ok(()),
        engine: Ok(Some(LexicalEngine { roots: Some(text("roots")) })),
        alone: DirectResult::Unavailable,
        direct: DirectResult::Unavailable,
        found: Ok(vec![text("local")]),
        local_searches: 0,
    }
}

impl LexicalHost {
    fn run(&mut self, scope: SearchScope) -> Hits {
        let mut step = lexical_code_hits(scope);
        loop {
            step = match step {
                LexicalStep::CheckGates(ask) => ask.answer(self.gates.clone()),
                LexicalStep::Acquire(ask) => ask.answer(self.engine.clone()),
                LexicalStep::SearchBaselineAlone(ask) => ask.answer(self.alone.clone()),
                LexicalStep::SearchDirect(ask) => ask.answer(self.direct.clone()),
                LexicalStep::SearchLocal(ask) => {
                    self.local_searches += 1;
                    ask.answer(self.found.clone())
                }
                LexicalStep::Done(result) => return result,
            };
        }
    }
}

const REMOTE: SearchScope =
    SearchScope { mode: WorkspaceSearchMode::PostgresRemoteOverlay, external: true };
const LOCAL_WITH_BASELINE: SearchScope =
    SearchScope { mode: WorkspaceSearchMode::SqliteLocal, external: true };

fn pending(result: &Hits) -> &str {
    match result {
        Ok(CodeHits::Pending(text)) => text,
        other => panic!("expected to be asked again, got {other:?}"),
    }
}

#[test]
fn a_cancelled_lexical_modality_is_a_failure_not_a_pending_body() {
    let lock: Mutex<Option<u8>> = Mutex::new(Some(1));
    let cancel = CancellationToken::new();
    cancel.cancel();
    let (outcome, _) = wait_for(&lock, &cancel, try_acquire_engine());
    let AcquireStep::Failed(failure) = outcome else { panic!("{outcome:?}") };
    let out = LexicalHost { engine: Err(failure), ..lexical_host() }.run(local());
    assert!(
        !matches!(out, Ok(CodeHits::Pending(_))),
        "a cancelled call must not be a retry envelope"
    );
    assert!(matches!(out, Err(SearchFailure::Cancelled)));
}

#[test]
fn a_local_search_answers_from_the_local_index() {
    let mut host = lexical_host();
    assert_eq!(
        host.run(local()),
        Ok(CodeHits::Ready { hits: vec![text("local")], roots: Some(text("roots")) })
    );
    let mut broken = LexicalHost { found: Err(text("fts")), ..lexical_host() };
    let Err(SearchFailure::Error(error)) = broken.run(local()) else { panic!("an error") };
    assert_eq!((error.code, error.message.as_str()), (INTERNAL_ERROR, "search error: fts"));
}

#[test]
fn a_refused_workspace_is_not_searched() {
    let mut host = LexicalHost { gates: Err(terminal()), ..lexical_host() };
    assert_eq!(host.run(local()), Err(SearchFailure::Error(terminal())));
    assert_eq!(host.local_searches, 0);
}

#[test]
fn a_shared_baseline_is_not_replaced_by_the_local_index() {
    let mut host = lexical_host();
    assert_eq!(
        pending(&host.run(REMOTE)),
        "Baseline lexical serving is temporarily unavailable; please retry shortly."
    );
    assert_eq!(host.local_searches, 0);
    let out = host.run(LOCAL_WITH_BASELINE);
    assert_eq!(host.local_searches, 1);
    assert!(matches!(out, Ok(CodeHits::Ready { hits, .. }) if hits == ["local"]));
}

#[test]
fn lexical_waits_name_their_reason() {
    let busy = "Search index is busy (a long operation is holding it); please try again in a moment.";
    let building = "Search index is being built, please try again in a moment.";
    let with = |engine: Result<Option<LexicalEngine<String>>, AcquireFailure>, alone, scope| {
        LexicalHost { engine, alone, ..lexical_host() }.run(scope)
    };
    let timed_out = || Err(AcquireFailure::TimedOut);
    assert_eq!(pending(&with(timed_out(), DirectResult::Unavailable, local())), busy);
    assert_eq!(pending(&with(timed_out(), DirectResult::Unavailable, REMOTE)), busy);
    assert_eq!(
        pending(&with(timed_out(), DirectResult::Found(vec![]), REMOTE)),
        "No results found (overlay is warming up, only baseline search available)."
    );
    assert_eq!(
        with(timed_out(), DirectResult::Found(vec![text("b")]), REMOTE),
        Ok(CodeHits::Ready { hits: vec![text("b")], roots: None })
    );
    assert_eq!(pending(&with(Ok(None), DirectResult::Unavailable, local())), building);
    assert_eq!(pending(&with(Ok(None), DirectResult::Unavailable, REMOTE)), building);
    assert_eq!(
        with(Ok(None), DirectResult::Found(vec![]), REMOTE),
        Ok(CodeHits::Ready { hits: vec![], roots: None })
    );
    assert_eq!(
        with(Ok(None), DirectResult::Cancelled, REMOTE),
        Err(SearchFailure::Cancelled)
    );
    assert_eq!(
        with(Ok(None), DirectResult::Terminal(terminal()), REMOTE),
        Err(SearchFailure::Error(terminal()))
    );
    assert_eq!(
        with(Err(AcquireFailure::Poisoned), DirectResult::Unavailable, local()),
        Err(SearchFailure::Error(engine_lock_poisoned_error()))
    );
}

#[test]
fn a_direct_lexical_search_keeps_the_roots_of_the_engine() {
    let direct = |direct| LexicalHost { direct, ..lexical_host() }.run(REMOTE);
    assert_eq!(
        direct(DirectResult::Found(vec![text("d")])),
        Ok(CodeHits::Ready { hits: vec![text("d")], roots: Some(text("roots")) })
    );
    assert_eq!(direct(DirectResult::Cancelled), Err(SearchFailure::Cancelled));
    assert_eq!(
        direct(DirectResult::Terminal(terminal())),
        Err(SearchFailure::Error(terminal()))
    );
}

/// A host of a semantic search.
struct SemanticHost {
    gates: Result<(), McpError>,
    runtime: Result<SemanticRuntimeStatus, String>,
    engine: Result<Option<SemanticEngine<String>>, AcquireFailure>,
    identity: Result<Option<(String, u64)>, BaselineCall<()>>,
    resolution: Result<Option<u8>, BaselineCall<BaselineError>>,
    embedded: EmbedAnswer,
    engine_again: Result<Option<bool>, AcquireFailure>,
    direct: DirectResult<String>,
    found: Result<Vec<String>, String>,
    embeddings: usize,
}

fn semantic_host() -> SemanticHost {
    SemanticHost {
        gates: Ok(()),
        runtime: Ok(SemanticRuntimeStatus::Ready),
        engine: Ok(Some(SemanticEngine {
            has_semantic: true,
            has_embedder: true,
            model: Some(text("test-model")),
            dim: Some(8),
            roots: Some(text("roots")),
        })),
        identity: Ok(None),
        resolution: Ok(Some(1)),
        embedded: EmbedAnswer::Embedded,
        engine_again: Ok(Some(true)),
        direct: DirectResult::Found(vec![text("direct")]),
        found: Ok(vec![text("local")]),
        embeddings: 0,
    }
}

impl SemanticHost {
    fn run(&mut self, scope: SearchScope) -> Hits {
        let mut step = semantic_code_hits(scope);
        loop {
            step = match step {
                SemanticStep::CheckGates(ask) => ask.answer(self.gates.clone()),
                SemanticStep::ReadRuntime(ask) => ask.answer(self.runtime.clone()),
                SemanticStep::Acquire(ask) => ask.answer(self.engine.clone()),
                SemanticStep::ReadIdentity(ask) => ask.answer(self.identity.clone()),
                SemanticStep::ResolveBaseline(ask) => ask.answer(self.resolution.clone()),
                SemanticStep::Embed(ask) => {
                    self.embeddings += 1;
                    ask.answer(self.embedded.clone())
                }
                SemanticStep::Reacquire(ask) => ask.answer(self.engine_again),
                SemanticStep::SearchDirect(ask) => {
                    assert_eq!(
                        ask.resolved,
                        ResolvedBaseline { snapshot: 1, model_id: text("test-model"), dim: 8 }
                    );
                    ask.answer(self.direct.clone())
                }
                SemanticStep::SearchLocal(ask) => ask.answer(self.found.clone()),
                SemanticStep::Done(result) => return result,
            };
        }
    }

    fn engine(&mut self) -> &mut SemanticEngine<String> {
        self.engine.as_mut().unwrap().as_mut().unwrap()
    }
}

/// An engine that searches by words only, as a workspace without an embedder has it.
fn without_vectors(runtime: SemanticRuntimeStatus) -> SemanticHost {
    let mut host = SemanticHost { runtime: Ok(runtime), ..semantic_host() };
    host.engine().has_semantic = false;
    host.engine().has_embedder = false;
    host
}

fn unavailable(result: Hits) -> SemanticUnavailable {
    match result {
        Ok(CodeHits::Unavailable(reason)) => reason,
        other => panic!("expected to be unavailable, got {other:?}"),
    }
}

#[test]
fn semantic_core_reports_unavailable_when_runtime_failed() {
    let outcome =
        without_vectors(SemanticRuntimeStatus::Failed("overlay sync failed".to_owned()))
            .run(local())
            .unwrap();
    assert!(matches!(outcome, CodeHits::Unavailable(SemanticUnavailable::RuntimeFailed)));
}

#[test]
fn semantic_core_reports_pending_when_indexing() {
    let outcome = without_vectors(SemanticRuntimeStatus::Indexing).run(local()).unwrap();
    assert!(matches!(outcome, CodeHits::Pending(_)));
}

#[test]
fn semantic_core_degrades_to_lexical_when_query_embed_fails() {
    let embedded = EmbedAnswer::EmbedderFailed("connection refused".to_owned());
    let outcome = SemanticHost { embedded, ..semantic_host() }.run(local()).unwrap();
    assert!(matches!(
        outcome,
        CodeHits::Unavailable(SemanticUnavailable::EmbedderUnavailable(_))
    ));
}

#[test]
fn a_semantic_search_answers_from_the_index_of_its_scope() {
    assert_eq!(
        semantic_host().run(local()),
        Ok(CodeHits::Ready { hits: vec![text("local")], roots: Some(text("roots")) })
    );
    for scope in [REMOTE, LOCAL_WITH_BASELINE] {
        assert_eq!(
            semantic_host().run(scope),
            Ok(CodeHits::Ready { hits: vec![text("direct")], roots: Some(text("roots")) })
        );
    }
}

#[test]
fn an_engine_without_vectors_is_not_configured() {
    for status in [
        SemanticRuntimeStatus::Disabled,
        SemanticRuntimeStatus::Ready,
        SemanticRuntimeStatus::OverlaySyncing,
    ] {
        assert_eq!(
            unavailable(without_vectors(status).run(local())),
            SemanticUnavailable::NotConfigured
        );
    }
    let mut host = semantic_host();
    host.engine().has_embedder = false;
    assert_eq!(unavailable(host.run(local())), SemanticUnavailable::NotConfigured);
    let mut host = SemanticHost { engine_again: Ok(Some(false)), ..semantic_host() };
    assert_eq!(unavailable(host.run(local())), SemanticUnavailable::NotConfigured);
}

#[test]
fn another_embedding_identity_is_reported_with_both_sides() {
    let mut host =
        SemanticHost { identity: Ok(Some((text("e5"), 1024))), ..semantic_host() };
    host.engine().dim = None;
    let expected = "semantic skipped: this baseline was indexed with model 'e5' (dim 1024), but \
                    the reader is configured with model 'test-model' (dim unset); set \
                    EMBEDDING_MODEL/EMBEDDING_DIM (or [search.baseline.embedding] in \
                    bsl-analyzer.toml) to match and restart";
    assert_eq!(
        unavailable(host.run(REMOTE)),
        SemanticUnavailable::IdentityMismatch(text(expected))
    );
    assert_eq!(host.embeddings, 0);

    let mut host =
        SemanticHost { identity: Ok(Some((text("test-model"), 16))), ..semantic_host() };
    host.engine().model = None;
    let SemanticUnavailable::IdentityMismatch(told) = unavailable(host.run(REMOTE)) else {
        panic!("a mismatch")
    };
    assert!(told.contains("'test-model' (dim 16)") && told.contains("model 'unset' (dim 8)"));
}

#[test]
fn a_matching_or_unknown_identity_is_searched() {
    for identity in [
        Ok(Some((text("test-model"), 8))),
        Ok(None),
        Err(BaselineCall::Failed(())),
    ] {
        let mut host = SemanticHost { identity, ..semantic_host() };
        assert!(matches!(host.run(REMOTE), Ok(CodeHits::Ready { .. })));
    }
    let mut host = SemanticHost { identity: Err(BaselineCall::Withdrawn), ..semantic_host() };
    assert_eq!(host.run(REMOTE), Err(SearchFailure::Cancelled));
}

#[test]
fn a_baseline_that_is_not_ready_is_found_out_before_the_query_is_embedded() {
    let mut host = SemanticHost { resolution: Ok(None), ..semantic_host() };
    assert_eq!(unavailable(host.run(REMOTE)), SemanticUnavailable::BaselineNotReady);
    assert_eq!(host.embeddings, 0);
    assert!(matches!(host.run(LOCAL_WITH_BASELINE), Ok(CodeHits::Ready { hits, .. }) if hits == ["local"]));
    assert_eq!(host.embeddings, 1);

    let without_baseline = SearchScope { external: false, ..REMOTE };
    let mut host = semantic_host();
    assert_eq!(unavailable(host.run(without_baseline)), SemanticUnavailable::BaselineRequired);
    assert_eq!(host.embeddings, 0);

    let failed = Err(BaselineCall::Failed(BaselineError::Terminal(terminal())));
    let mut host = SemanticHost { resolution: failed, ..semantic_host() };
    assert_eq!(host.run(REMOTE), Err(SearchFailure::Error(terminal())));
    let mut host =
        SemanticHost { resolution: Err(BaselineCall::Withdrawn), ..semantic_host() };
    assert_eq!(host.run(REMOTE), Err(SearchFailure::Cancelled));
}

#[test]
fn vectors_without_a_model_or_dimension_resolve_nothing() {
    let ready = DirectResolve::Ready(ResolvedBaseline { snapshot: 1, model_id: text("m"), dim: 3 });
    assert_eq!(resolve_direct_semantic(Ok(Some(1)), Some(text("m")), Some(3)), ready);
    assert_eq!(
        resolve_direct_semantic(Ok(Some(1)), None, Some(3)),
        DirectResolve::Unavailable
    );
    assert_eq!(
        resolve_direct_semantic(Ok(Some(1)), Some(text("m")), None),
        DirectResolve::Unavailable
    );
    assert_eq!(
        resolve_direct_semantic::<u8>(
            Err(BaselineCall::Failed(BaselineError::Transient)),
            None,
            None
        ),
        DirectResolve::Unavailable
    );
}

#[test]
fn semantic_waits_and_failures_name_their_reason() {
    let busy = "Semantic search is busy (a long operation is holding the index). Lexical search \
                is available in the meantime.";
    let building = "Search index is being built, please try again in a moment.";
    let mut host = SemanticHost { engine: Err(AcquireFailure::TimedOut), ..semantic_host() };
    assert_eq!(pending(&host.run(local())), busy);
    let mut host = SemanticHost { engine: Ok(None), ..semantic_host() };
    assert_eq!(pending(&host.run(local())), building);
    let mut host = SemanticHost { engine: Err(AcquireFailure::Cancelled), ..semantic_host() };
    assert_eq!(host.run(local()), Err(SearchFailure::Cancelled));
    let mut host =
        SemanticHost { engine_again: Err(AcquireFailure::TimedOut), ..semantic_host() };
    assert_eq!(pending(&host.run(local())), busy);
    let mut host = SemanticHost { engine_again: Ok(None), ..semantic_host() };
    assert_eq!(pending(&host.run(local())), building);
    let mut host =
        SemanticHost { engine_again: Err(AcquireFailure::Poisoned), ..semantic_host() };
    assert_eq!(host.run(local()), Err(SearchFailure::Error(engine_lock_poisoned_error())));
    let mut host = SemanticHost { embedded: EmbedAnswer::Withdrawn, ..semantic_host() };
    assert_eq!(host.run(local()), Err(SearchFailure::Cancelled));
    let message = |host: &mut SemanticHost, scope| match host.run(scope) {
        Err(SearchFailure::Error(error)) => error.message,
        other => panic!("expected an error, got {other:?}"),
    };
    let mut host = SemanticHost { runtime: Err(text("poisoned")), ..semantic_host() };
    assert_eq!(message(&mut host, local()), "semantic runtime lock error: poisoned");
    let mut host =
        SemanticHost { embedded: EmbedAnswer::Failed(text("vector")), ..semantic_host() };
    assert_eq!(message(&mut host, local()), "search error: vector");
    let mut host = SemanticHost { found: Err(text("index")), ..semantic_host() };
    assert_eq!(message(&mut host, local()), "search error: index");
    let mut host = SemanticHost { gates: Err(terminal()), ..semantic_host() };
    assert_eq!(message(&mut host, local()), "the snapshot is gone");
}

#[test]
fn a_direct_semantic_search_falls_back_only_outside_the_shared_baseline() {
    let direct =
        |direct, scope| SemanticHost { direct, ..semantic_host() }.run(scope);
    assert_eq!(
        unavailable(direct(DirectResult::Unavailable, REMOTE)),
        SemanticUnavailable::BaselineNotReady
    );
    assert!(matches!(
        direct(DirectResult::Unavailable, LOCAL_WITH_BASELINE),
        Ok(CodeHits::Ready { hits, .. }) if hits == ["local"]
    ));
    assert_eq!(direct(DirectResult::Cancelled, REMOTE), Err(SearchFailure::Cancelled));
    assert_eq!(
        direct(DirectResult::Terminal(terminal()), REMOTE),
        Err(SearchFailure::Error(terminal()))
    );
}

/// A code search over both modalities; hits are fused words before meaning, each once.
fn hybrid(
    lexical: Hits,
    cancelled: bool,
    semantic: Hits,
    limit: usize,
) -> Result<HybridAnswer<String, String>, SearchFailure> {
    let mut semantic = Some(semantic);
    let mut step: HybridStep<String, String, String> = hybrid_code_cancellable(lexical);
    loop {
        step = match step {
            HybridStep::CheckCancelled(ask) => ask.answer(cancelled),
            HybridStep::Semantic(ask) => ask.answer(semantic.take().expect("asked once")),
            HybridStep::Fuse(ask) => {
                let mut fused = ask.lexical.clone();
                for hit in &ask.semantic {
                    if !fused.contains(hit) {
                        fused.push(hit.clone());
                    }
                }
                return Ok(ask.answer(fused, limit));
            }
            HybridStep::Done(result) => return result,
        };
    }
}

fn ready(hits: &[&str]) -> Hits {
    Ok(CodeHits::Ready {
        hits: hits.iter().map(|hit| hit.to_string()).collect(),
        roots: Some(text("roots")),
    })
}

#[test]
fn all_search_modes_are_resident_only_under_held_lease() {
    // The resident index still holds the previous text of the module. Every other source has the
    // new text, so a search that asked one of them would show it.
    let newer = || DirectResult::Found(vec![text("Новая")]);
    let mut words = LexicalHost {
        alone: newer(),
        direct: newer(),
        found: Ok(vec![text("Предыдущая")]),
        ..lexical_host()
    };
    let lexical = words.run(local());
    assert_eq!(words.local_searches, 1);
    let mut vectors = without_vectors(SemanticRuntimeStatus::Failed("test".to_owned()));
    vectors.direct = newer();
    vectors.found = Ok(vec![text("Новая")]);
    let semantic = vectors.run(local());
    assert_eq!(vectors.embeddings, 0);

    let Ok(CodeHits::Ready { hits, .. }) = &lexical else {
        panic!("lexical search must serve the resident snapshot")
    };
    assert!(hits.iter().any(|hit| hit == "Предыдущая"));
    assert!(matches!(semantic, Ok(CodeHits::Unavailable(_))));

    let answer = hybrid_code(hybrid(lexical, false, semantic, 10)).unwrap();
    let HybridAnswer::Hits { hits, note, .. } = answer else { panic!("hits") };
    assert_eq!(note, Some(Degradation::Unavailable(SemanticUnavailable::RuntimeFailed)));
    let hybrid_text = assemble_code_response(&hits.join("\n"), None);
    assert!(hybrid_text.contains("Предыдущая"), "{hybrid_text}");
    assert!(!hybrid_text.contains("Новая"), "{hybrid_text}");
}

#[test]
fn both_modalities_are_fused_and_cut_at_the_limit() {
    let answer = hybrid(ready(&["a", "b"]), false, ready(&["b", "c", "d"]), 3).unwrap();
    assert_eq!(
        answer,
        HybridAnswer::Hits {
            hits: vec![text("a"), text("b"), text("c")],
            roots: Some(text("roots")),
            note: None
        }
    );
}

#[test]
fn a_missing_semantic_modality_is_noted_under_the_lexical_hits() {
    let note = |semantic| match hybrid(ready(&["a"]), false, semantic, 5) {
        Ok(HybridAnswer::Hits { hits, note, .. }) => {
            assert_eq!(hits, ["a"]);
            note
        }
        other => panic!("expected hits, got {other:?}"),
    };
    assert_eq!(
        note(Ok(CodeHits::Pending(text("later")))),
        Some(Degradation::Pending(text("later")))
    );
    assert_eq!(
        note(Ok(CodeHits::Unavailable(SemanticUnavailable::NotConfigured))),
        Some(Degradation::Unavailable(SemanticUnavailable::NotConfigured))
    );
    assert_eq!(
        hybrid(ready(&[]), false, Ok(CodeHits::Pending(text("later"))), 5),
        Ok(HybridAnswer::NoHits(Some(Degradation::Pending(text("later")))))
    );
}

#[test]
fn a_code_search_without_its_floor_is_not_ready() {
    assert_eq!(
        hybrid(Ok(CodeHits::Pending(text("later"))), false, ready(&["x"]), 5),
        Ok(HybridAnswer::NotReady(text("later")))
    );
    assert_eq!(
        hybrid(
            Ok(CodeHits::Unavailable(SemanticUnavailable::NotConfigured)),
            false,
            ready(&["x"]),
            5
        ),
        Ok(HybridAnswer::NotReady(text(
            "Search index is being built, please try again in a moment."
        )))
    );
    assert_eq!(
        hybrid(Err(SearchFailure::Error(terminal())), false, ready(&["x"]), 5),
        Err(SearchFailure::Error(terminal()))
    );
    assert_eq!(hybrid(ready(&["a"]), true, ready(&["x"]), 5), Err(SearchFailure::Cancelled));
    assert_eq!(
        hybrid(ready(&["a"]), false, Err(SearchFailure::Cancelled), 5),
        Err(SearchFailure::Cancelled)
    );
    let Err(error) = hybrid_code::<u8>(Err(SearchFailure::Cancelled)) else { panic!("an error") };
    assert_eq!((error.code, error.message.as_str()), (INTERNAL_ERROR, "request cancelled"));
    assert_eq!(hybrid_code::<u8>(Err(SearchFailure::Error(terminal()))), Err(terminal()));
}

#[test]
fn each_modality_is_asked_for_more_than_the_limit() {
    assert_eq!(hybrid_fetch(10, 3), 30);
    assert_eq!(hybrid_fetch(10, 0), 10);
    assert_eq!(hybrid_fetch(usize::MAX, 2), usize::MAX);
}

#[test]
fn the_legend_and_the_note_are_paid_for() {
    assert_eq!(MODALITY_LEGEND.len(), 108);
    assert_eq!(hits_budget(1000, None), 1000 - 27);
    // A note of four bytes: 108 + 12 + 9 bytes are 33 tokens.
    assert_eq!(hits_budget(1000, Some("note")), 1000 - 33);
    // Bytes are counted, not characters.
    assert_eq!(hits_budget(1000, Some("сс")), 1000 - 33);
    assert_eq!(hits_budget(27, None), 0);
    assert_eq!(hits_budget(28, None), 1);
    assert_eq!(hits_budget(0, Some("note")), 0);
}

#[test]
fn a_long_degradation_note_is_charged_to_the_budget_that_carries_it() {
    let mut saw_complete_answer = false;
    for note_length in [44usize, 230, 800] {
        let note = "с".repeat(note_length);
        for budget in (50usize..=2000).step_by(25) {
            // The hits spend all that is left to them, on their lines and on their entries in
            // the structured body, which carries the note twice more.
            let left = 4 * hits_budget(budget, Some(&note));
            if left == 0 {
                continue;
            }
            saw_complete_answer = true;
            let entries = left / 2;
            let lines = "x".repeat(left - entries);
            let text = assemble_code_response(&lines, Some(&note));
            let size = text.len() + entries + 2 * note.len();
            assert!(
                size <= budget * 4,
                "note of {note_length} chars, budget {budget}: {size} chars shipped as a \
                 complete answer",
            );
            assert!(size + 6 > budget * 4, "hardly a byte is left unspent: {size} of {budget}");
        }
    }
    assert!(saw_complete_answer, "the sweep must include answers that fit, or it proves nothing");
}

#[test]
fn a_note_trails_the_hits_in_a_line_of_its_own() {
    assert_eq!(
        assemble_code_response("#1 hit\n", Some("semantic skipped")),
        format!("{MODALITY_LEGEND}#1 hit\n-- semantic skipped --\n")
    );
    assert_eq!(assemble_code_response("#1 hit\n", None), format!("{MODALITY_LEGEND}#1 hit\n"));
}

type Docs = Result<DocsAnswer<String, String>, SearchFailure>;

/// A host of a documentation search by words.
struct FindHost {
    gate: Result<(), McpError>,
    engine: Result<bool, AcquireFailure>,
    snapshot: Result<Option<u8>, SearchFailure>,
    baseline: Result<Vec<String>, BaselineCall<BaselineError>>,
    view: Result<bool, SearchFailure>,
    documents: Vec<String>,
    found: Result<Vec<String>, String>,
    asked: Vec<&'static str>,
}

fn find_host() -> FindHost {
    FindHost {
        gate: Ok(()),
        engine: Ok(true),
        snapshot: Ok(Some(1)),
        baseline: Ok(vec![text("baseline")]),
        view: Ok(true),
        documents: vec![text("document")],
        found: Ok(vec![text("local")]),
        asked: vec![],
    }
}

impl FindHost {
    fn run(&mut self, external: bool) -> Docs {
        let mut step = find_docs(external);
        loop {
            step = match step {
                FindStep::CheckRuntime(ask) => ask.answer(self.gate.clone()),
                FindStep::Acquire(ask) => ask.answer(self.engine),
                FindStep::ResolveSnapshot(ask) => ask.answer(self.snapshot.clone()),
                FindStep::SearchBaseline(ask) => {
                    self.asked.push("baseline");
                    assert_eq!(ask.snapshot, 1);
                    ask.answer(self.baseline.clone())
                }
                FindStep::ResolveView(ask) => ask.answer(self.view.clone()),
                FindStep::SearchView(ask) => {
                    self.asked.push("view");
                    ask.answer(self.documents.clone())
                }
                FindStep::SearchLocal(ask) => {
                    self.asked.push("local");
                    ask.answer(self.found.clone())
                }
                FindStep::Done(result) => return result,
            };
        }
    }
}

/// What a reference search is refused with while its shared baseline cannot be reached.
fn baseline_unavailable() -> McpError {
    McpError {
        code: INVALID_PARAMS,
        message: text(
            "Shared reference baseline is unavailable: failed to resolve PostgreSQL reader \
             credentials",
        ),
        reason_code: Some(text("baseline_unavailable")),
    }
}

#[test]
fn find_docs_rejects_local_fallback_when_reference_postgres_baseline_is_unavailable() {
    let mut host = FindHost { gate: Err(baseline_unavailable()), ..find_host() };
    let Err(SearchFailure::Error(error)) = host.run(false) else { panic!("an error") };
    assert_eq!(error.code, INVALID_PARAMS);
    assert!(error.message.contains("Shared reference baseline is unavailable"));
    assert_eq!(error.reason_code.as_deref(), Some("baseline_unavailable"));
    assert!(host.asked.is_empty());
}

#[test]
fn find_docs_answers_from_the_baseline_first() {
    let mut host = find_host();
    assert_eq!(host.run(true), Ok(DocsAnswer::Baseline(vec![text("baseline")])));
    assert_eq!(host.asked, ["baseline"]);
    let mut host = FindHost { baseline: Ok(vec![]), ..find_host() };
    assert_eq!(host.run(true), Ok(DocsAnswer::NoHits), "an empty answer is an answer");
    assert_eq!(host.asked, ["baseline"]);
    let mut host = find_host();
    assert_eq!(host.run(false), Ok(DocsAnswer::Documents(vec![text("local")])));
    let mut host = FindHost { snapshot: Ok(None), ..find_host() };
    assert_eq!(host.run(true), Ok(DocsAnswer::Documents(vec![text("local")])));
    let mut host = FindHost { found: Ok(vec![]), ..find_host() };
    assert_eq!(host.run(false), Ok(DocsAnswer::NoHits));
    let mut host = FindHost { engine: Ok(false), ..find_host() };
    assert_eq!(host.run(false), Ok(DocsAnswer::NotReady));
}

#[test]
fn find_docs_falls_back_to_the_documents_of_the_baseline() {
    let transient = || Err(BaselineCall::Failed(BaselineError::Transient));
    let mut host = FindHost { baseline: transient(), ..find_host() };
    assert_eq!(host.run(true), Ok(DocsAnswer::Documents(vec![text("document")])));
    assert_eq!(host.asked, ["baseline", "view"]);
    let mut host = FindHost { baseline: transient(), documents: vec![], ..find_host() };
    assert_eq!(host.run(true), Ok(DocsAnswer::NoHits));
    let mut host = FindHost { baseline: transient(), view: Ok(false), ..find_host() };
    assert_eq!(host.run(true), Ok(DocsAnswer::Documents(vec![text("local")])));
    assert_eq!(host.asked, ["baseline", "local"]);
    let mut host =
        FindHost { baseline: transient(), view: Ok(false), engine: Ok(false), ..find_host() };
    assert_eq!(host.run(true), Ok(DocsAnswer::NotReady));
}

#[test]
fn a_cancelled_docs_search_goes_no_further() {
    let mut host = FindHost { baseline: Err(BaselineCall::Withdrawn), ..find_host() };
    assert_eq!(host.run(true), Err(SearchFailure::Cancelled));
    assert_eq!(host.asked, ["baseline"], "neither the documents nor the local index are asked");
    let mut host = FindHost { snapshot: Err(SearchFailure::Cancelled), ..find_host() };
    assert_eq!(host.run(true), Err(SearchFailure::Cancelled));
    let failed = Err(BaselineCall::Failed(BaselineError::Terminal(terminal())));
    let mut host = FindHost { baseline: failed, ..find_host() };
    assert_eq!(host.run(true), Err(SearchFailure::Error(terminal())));
    let mut host = FindHost { found: Err(text("fts")), ..find_host() };
    let Err(SearchFailure::Error(error)) = host.run(false) else { panic!("an error") };
    assert_eq!((error.code, error.message.as_str()), (INTERNAL_ERROR, "search error: fts"));
}

/// Takes the lock as a search does, and keeps it.
fn take<'a>(
    lock: &'a Mutex<Option<u8>>,
    cancel: &CancellationToken,
) -> Result<std::sync::MutexGuard<'a, Option<u8>>, AcquireFailure> {
    let mut held = None;
    let mut step = try_acquire_engine().look(cancel.is_cancelled());
    loop {
        step = match step {
            AcquireStep::TryLock(ask) => {
                held = lock.try_lock().ok();
                let attempt = match held {
                    Some(_) => LockAttempt::Taken,
                    None => LockAttempt::WouldBlock,
                };
                ask.tried(attempt, Span { nanos: 0 })
            }
            AcquireStep::Sleep(_, _) => panic!("the lock is free"),
            AcquireStep::Acquired => return Ok(held.take().expect("the lock was taken")),
            AcquireStep::Failed(failure) => return Err(failure),
        };
    }
}

#[test]
fn a_cancelled_search_waiting_on_the_actor_releases_the_engine_lock() {
    let engine: Mutex<Option<u8>> = Mutex::new(Some(1));
    let cancel = CancellationToken::new();
    let mut held = None;
    let mut step: LexicalStep<String, String> = lexical_code_hits(LOCAL_WITH_BASELINE);
    let out = loop {
        step = match step {
            LexicalStep::CheckGates(ask) => ask.answer(Ok(())),
            LexicalStep::Acquire(ask) => {
                held = Some(take(&engine, &cancel).unwrap());
                ask.answer(Ok(Some(LexicalEngine { roots: None })))
            }
            LexicalStep::SearchDirect(ask) => {
                assert!(
                    engine.try_lock().is_err(),
                    "sanity: the first search holds the engine while it waits"
                );
                cancel.cancel();
                let withdrawn = try_direct_lexical_code::<u8, _>(Err(BaselineCall::Withdrawn));
                let DirectStep::Done(result) = withdrawn else { panic!("no snapshot came back") };
                ask.answer(result)
            }
            LexicalStep::SearchBaselineAlone(_) => panic!("the engine is there"),
            LexicalStep::SearchLocal(_) => panic!("a cancelled search goes on under the lock"),
            LexicalStep::Done(result) => break result,
        };
    };
    drop(held);
    assert!(matches!(out, Err(SearchFailure::Cancelled)), "got {out:?}");
    assert_eq!(take(&engine, &cancel).err(), Some(AcquireFailure::Cancelled));
    let next = take(&engine, &CancellationToken::new());
    assert!(next.is_ok(), "the next search must take the engine lock");
}

#[test]
fn a_cancelled_identity_gate_releases_the_engine_lock() {
    let engine: Mutex<Option<u8>> = Mutex::new(Some(1));
    let cancel = CancellationToken::new();
    let there = semantic_host().engine().clone();
    let mut held = None;
    let mut step: SemanticStep<String, String, u8> = semantic_code_hits(LOCAL_WITH_BASELINE);
    let out = loop {
        step = match step {
            SemanticStep::CheckGates(ask) => ask.answer(Ok(())),
            SemanticStep::ReadRuntime(ask) => ask.answer(Ok(SemanticRuntimeStatus::Ready)),
            SemanticStep::Acquire(ask) => {
                held = Some(take(&engine, &cancel).unwrap());
                ask.answer(Ok(Some(there.clone())))
            }
            SemanticStep::ReadIdentity(ask) => {
                assert!(
                    engine.try_lock().is_err(),
                    "sanity: the identity gate runs under the guard"
                );
                cancel.cancel();
                ask.answer(Err(BaselineCall::Withdrawn))
            }
            SemanticStep::Done(result) => break result,
            _ => panic!("a cancelled search goes on under the lock"),
        };
    };
    drop(held);
    assert!(matches!(out, Err(SearchFailure::Cancelled)), "got {out:?}");
    let next = take(&engine, &CancellationToken::new());
    assert!(next.is_ok(), "the next search must take the engine lock");
}

#[test]
fn a_cancelled_docs_search_does_not_fall_back_to_the_corpus_view() {
    let mut host = FindHost { baseline: Err(BaselineCall::Withdrawn), ..find_host() };
    let out = host.run(true);
    assert!(matches!(out, Err(SearchFailure::Cancelled)), "got {out:?}");
    assert_eq!(host.asked, vec!["baseline"], "the documents must never be requested");
}

/// A code search whose gates are open and whose shared baseline fails for good with this error.
fn code_search_on_a_failing_baseline(error: McpError) -> McpError {
    let failed = Err(BaselineCall::Failed(BaselineError::Terminal(error)));
    let DirectStep::Done(direct) = try_direct_lexical_code::<u8, _>(failed) else {
        panic!("no snapshot came back")
    };
    let mut host = LexicalHost { direct, ..lexical_host() };
    let lexical = host.run(REMOTE);
    assert_eq!(host.local_searches, 0, "the local index does not stand in for the baseline");
    hybrid_code(hybrid(lexical, false, ready(&["unasked"]), 10)).unwrap_err()
}

#[test]
fn code_search_surfaces_retry_exhausted_errors_for_empty_queries() {
    let error = code_search_on_a_failing_baseline(McpError {
        code: INTERNAL_ERROR,
        message: text("external baseline error: connection refused"),
        reason_code: Some(text("refresh_retry_exhausted")),
    });
    assert_eq!(error.code, INTERNAL_ERROR);
    assert_eq!(error.reason_code.as_deref(), Some("refresh_retry_exhausted"));
}

#[test]
fn code_search_surfaces_retry_exhausted_external_baseline_errors() {
    let error = code_search_on_a_failing_baseline(McpError {
        code: INTERNAL_ERROR,
        message: text("external baseline error: connection refused"),
        reason_code: Some(text("refresh_retry_exhausted")),
    });
    assert_eq!(error.code, INTERNAL_ERROR);
    assert!(error.message.contains("external baseline error"));
    assert_eq!(error.reason_code.as_deref(), Some("refresh_retry_exhausted"));
}

#[test]
fn a_wait_for_the_engine_is_answered_by_its_kind() {
    let guard = |acquired| engine_guard::<u8, String, String>(acquired);
    assert_eq!(guard(Ok(5)), Ok(5));
    assert_eq!(guard(Err(AcquireFailure::TimedOut)), Err(Ok(DocsAnswer::NotReady)));
    assert_eq!(guard(Err(AcquireFailure::Cancelled)), Err(Err(SearchFailure::Cancelled)));
    assert_eq!(
        guard(Err(AcquireFailure::Poisoned)),
        Err(Err(SearchFailure::Error(engine_lock_poisoned_error())))
    );
    assert_eq!(unless_withdrawn::<u8, u8>(Ok(1)), Ok(Ok(1)));
    assert_eq!(unless_withdrawn::<u8, u8>(Err(BaselineCall::Failed(2))), Ok(Err(2)));
    assert_eq!(
        unless_withdrawn::<u8, u8>(Err(BaselineCall::Withdrawn)),
        Err(SearchFailure::Cancelled)
    );
}

/// A host of a documentation search by meaning.
struct MeaningHost {
    gate: Result<(), McpError>,
    engine: Result<Option<DocsEngine>, AcquireFailure>,
    snapshot: Result<Option<u8>, SearchFailure>,
    embedded: DocsEmbedding,
    engine_again: Result<Option<bool>, AcquireFailure>,
    baseline: Result<Vec<String>, BaselineCall<BaselineError>>,
    found: Result<Vec<String>, String>,
    asked: Vec<&'static str>,
}

fn docs_engine() -> DocsEngine {
    DocsEngine {
        has_semantic: true,
        has_embedder: true,
        model: Some(text("e5")),
        dim: Some(1024),
    }
}

fn meaning_host() -> MeaningHost {
    MeaningHost {
        gate: Ok(()),
        engine: Ok(Some(docs_engine())),
        snapshot: Ok(Some(1)),
        embedded: DocsEmbedding::Embedded,
        engine_again: Ok(Some(true)),
        baseline: Ok(vec![text("baseline")]),
        found: Ok(vec![text("local")]),
        asked: vec![],
    }
}

impl MeaningHost {
    fn run(&mut self, external: bool) -> Docs {
        let mut step = search_docs(external);
        loop {
            step = match step {
                SearchStep::CheckRuntime(ask) => ask.answer(self.gate.clone()),
                SearchStep::Acquire(ask) => ask.answer(self.engine.clone()),
                SearchStep::ResolveSnapshot(ask) => {
                    self.asked.push("snapshot");
                    ask.answer(self.snapshot.clone())
                }
                SearchStep::Embed(ask) => {
                    self.asked.push("embed");
                    ask.answer(self.embedded.clone())
                }
                SearchStep::Reacquire(ask) => ask.answer(self.engine_again),
                SearchStep::SearchBaseline(ask) => {
                    self.asked.push("baseline");
                    assert_eq!((ask.model.as_str(), ask.dim, ask.snapshot), ("e5", 1024, 1));
                    ask.answer(self.baseline.clone())
                }
                SearchStep::SearchLocal(ask) => {
                    self.asked.push("local");
                    ask.answer(self.found.clone())
                }
                SearchStep::Done(result) => return result,
            };
        }
    }

    fn message(&mut self, external: bool) -> String {
        match self.run(external) {
            Err(SearchFailure::Error(error)) => error.message,
            other => panic!("expected an error, got {other:?}"),
        }
    }
}

fn without_meaning() -> MeaningHost {
    let engine = DocsEngine { has_semantic: false, has_embedder: false, ..docs_engine() };
    MeaningHost { engine: Ok(Some(engine)), ..meaning_host() }
}

#[test]
fn search_docs_with_external_reference_baseline_uses_standard_semantic_validation() {
    let mut host = without_meaning();
    let Err(SearchFailure::Error(error)) = host.run(true) else { panic!("an error") };
    assert!(error.message.contains("Semantic search not available"));
    assert!(!error.message.contains("centralized reference baseline"));
    assert_eq!(error, semantic_not_available());
    assert_eq!(error.code, INVALID_PARAMS);
    assert!(host.asked.is_empty());
}

#[test]
fn search_docs_rejects_reference_postgres_baseline_unavailability_before_semantic_validation() {
    let mut host = MeaningHost { gate: Err(baseline_unavailable()), ..without_meaning() };
    let Err(SearchFailure::Error(error)) = host.run(false) else { panic!("an error") };
    assert_eq!(error.code, INVALID_PARAMS);
    assert!(error.message.contains("Shared reference baseline is unavailable"));
    assert_eq!(error.reason_code.as_deref(), Some("baseline_unavailable"));
}

#[test]
fn search_docs_falls_back_to_local_sqlite_when_external_semantic_fails() {
    assert!(without_meaning().message(true).contains("Semantic search not available"));
    let baseline = Err(BaselineCall::Failed(BaselineError::Transient));
    let mut host = MeaningHost { baseline, ..meaning_host() };
    assert_eq!(host.run(true), Ok(DocsAnswer::Documents(vec![text("local")])));
    assert_eq!(host.asked, ["snapshot", "embed", "baseline", "local"]);
}

#[test]
fn search_docs_answers_from_the_baseline_first() {
    assert_eq!(meaning_host().run(true), Ok(DocsAnswer::Baseline(vec![text("baseline")])));
    let mut host = MeaningHost { baseline: Ok(vec![]), ..meaning_host() };
    assert_eq!(host.run(true), Ok(DocsAnswer::NoHits));
    assert_eq!(meaning_host().run(false), Ok(DocsAnswer::Documents(vec![text("local")])));
    let mut host = MeaningHost { snapshot: Ok(None), ..meaning_host() };
    assert_eq!(host.run(true), Ok(DocsAnswer::Documents(vec![text("local")])));
    let mut host = MeaningHost { found: Ok(vec![]), ..meaning_host() };
    assert_eq!(host.run(false), Ok(DocsAnswer::NoHits));
}

#[test]
fn search_docs_ends_where_it_cannot_go_on() {
    let mut host = MeaningHost { engine: Ok(None), ..meaning_host() };
    assert_eq!(host.run(true), Ok(DocsAnswer::NotReady));
    let mut host = MeaningHost { engine_again: Ok(None), ..meaning_host() };
    assert_eq!(host.run(true), Ok(DocsAnswer::NotReady));
    let mut host = MeaningHost { engine: Err(AcquireFailure::TimedOut), ..meaning_host() };
    assert_eq!(host.run(true), Ok(DocsAnswer::NotReady));
    let mut host = MeaningHost { embedded: DocsEmbedding::Withdrawn, ..meaning_host() };
    assert_eq!(host.run(true), Err(SearchFailure::Cancelled));
    let mut host = MeaningHost { baseline: Err(BaselineCall::Withdrawn), ..meaning_host() };
    assert_eq!(host.run(true), Err(SearchFailure::Cancelled));
    let mut host = MeaningHost { engine_again: Ok(Some(false)), ..meaning_host() };
    assert!(host.message(true).contains("Semantic search not available"));
    let mut host =
        MeaningHost { embedded: DocsEmbedding::Failed(text("timeout")), ..meaning_host() };
    assert_eq!(host.message(true), "search error: timeout");
    let engine = DocsEngine { model: None, ..docs_engine() };
    let mut host = MeaningHost { engine: Ok(Some(engine)), ..meaning_host() };
    assert_eq!(host.message(true), "search error: semantic model id is unavailable");
    let engine = DocsEngine { dim: None, ..docs_engine() };
    let mut host = MeaningHost { engine: Ok(Some(engine)), ..meaning_host() };
    assert_eq!(host.message(true), "search error: embedding dimension is unavailable");
    let failed = Err(BaselineCall::Failed(BaselineError::Terminal(terminal())));
    let mut host = MeaningHost { baseline: failed, ..meaning_host() };
    assert_eq!(host.message(true), "the snapshot is gone");
    let mut host = MeaningHost { found: Err(text("index")), ..meaning_host() };
    assert_eq!(host.message(false), "search error: index");
}

#[test]
fn a_snapshot_that_cannot_be_had_costs_no_embedding() {
    let failed = Err(SearchFailure::Error(terminal()));
    let mut host = MeaningHost { snapshot: failed, ..meaning_host() };
    assert_eq!(host.message(true), "the snapshot is gone");
    assert_eq!(host.asked, ["snapshot"]);
    let mut host = MeaningHost { snapshot: Err(SearchFailure::Cancelled), ..meaning_host() };
    assert_eq!(host.run(true), Err(SearchFailure::Cancelled));
    assert_eq!(host.asked, ["snapshot"]);
}

#[test]
fn a_semantic_search_is_cancelled_wherever_it_waits() {
    let cancelled: [SemanticHost; 6] = [
        SemanticHost { engine: Err(AcquireFailure::Cancelled), ..semantic_host() },
        SemanticHost { identity: Err(BaselineCall::Withdrawn), ..semantic_host() },
        SemanticHost { resolution: Err(BaselineCall::Withdrawn), ..semantic_host() },
        SemanticHost { embedded: EmbedAnswer::Withdrawn, ..semantic_host() },
        SemanticHost { engine_again: Err(AcquireFailure::Cancelled), ..semantic_host() },
        SemanticHost { direct: DirectResult::Cancelled, ..semantic_host() },
    ];
    for mut host in cancelled {
        assert_eq!(host.run(REMOTE), Err(SearchFailure::Cancelled));
    }
}
