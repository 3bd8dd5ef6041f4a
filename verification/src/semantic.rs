//! The semantic modality of a code search.
//!
//! The search reads the engine under its lock, embeds the query without it, and takes the lock
//! again to search. It asks its host one question at a time.

use crate::acquire::{engine_lock_poisoned_error, poisoned_text, AcquireFailure};
use crate::embed_flight::SemanticRuntimeStatus;
use crate::error::{internal_error, plain_error, McpError, INTERNAL_ERROR};
use crate::refill::{BaselineCall, BaselineError, DirectResult};
use crate::search_types::{
    building_text, ends_broken, ends_cancelled, ends_pending, ends_ready, ends_unavailable,
    ends_with, hits_view, search_error, search_error_text, CodeHits, HitsView, SearchFailure,
    SearchScope, SemanticUnavailable, UnavailableView,
};
use crate::text::{decimal, decimal_text, same_text};
use vstd::prelude::*;

verus! {

/// What a search reads of the engine while it holds its lock.
#[derive(Debug, Clone, PartialEq, Eq)]
pub struct SemanticEngine<R> {
    pub has_semantic: bool,
    pub has_embedder: bool,
    pub model: Option<String>,
    pub dim: Option<u64>,
    pub roots: Option<R>,
}

/// A snapshot of the baseline and the identity of the vectors to search it with.
#[derive(Debug, Clone, PartialEq, Eq)]
pub struct ResolvedBaseline<S> {
    pub snapshot: S,
    pub model_id: String,
    pub dim: u64,
}

/// What the resolution of the baseline amounts to.
#[derive(Debug, Clone, PartialEq, Eq)]
pub enum DirectResolve<S> {
    Ready(ResolvedBaseline<S>),
    Unavailable,
    Terminal(McpError),
    Cancelled,
}

/// What became of the query in the embedder.
#[derive(Debug, Clone, PartialEq, Eq)]
pub enum EmbedAnswer {
    /// The host has the vector.
    Embedded,
    /// The embedder could not be asked, or refused.
    EmbedderFailed(String),
    Failed(String),
    /// The request was cancelled while it waited.
    Withdrawn,
}

/// The next step of a semantic search.
#[derive(Debug, PartialEq, Eq)]
pub enum SemanticStep<H, R, S> {
    /// Check that the workspace may be searched and that its baseline runs.
    CheckGates(AwaitSemanticGates),
    /// Read the status of the semantic runtime.
    ReadRuntime(AwaitRuntime),
    /// Wait for the lock of the engine.
    Acquire(AwaitSemanticEngine),
    /// Read the identity of the vectors in the baseline, still under the lock.
    ReadIdentity(AwaitIdentity<R>),
    /// Resolve the snapshot of the baseline; the lock is free.
    ResolveBaseline(AwaitResolution<R>),
    /// Embed the query; the lock is free.
    Embed(AwaitEmbedding<R, S>),
    /// Wait for the lock of the engine again.
    Reacquire(AwaitReacquired<R, S>),
    /// Search the baseline under the overlay of the engine.
    SearchDirect(AwaitSemanticDirect<R, S>),
    /// Search the local index.
    SearchLocal(AwaitSemanticLocal<R>),
    Done(Result<CodeHits<H, R>, SearchFailure>),
}

/// The next step, with the texts of an end as sequences of characters.
pub enum SemanticView<H, R, S> {
    CheckGates(AwaitSemanticGates),
    ReadRuntime(AwaitRuntime),
    Acquire(AwaitSemanticEngine),
    ReadIdentity(AwaitIdentity<R>),
    ResolveBaseline(AwaitResolution<R>),
    Embed(AwaitEmbedding<R, S>),
    Reacquire(AwaitReacquired<R, S>),
    SearchDirect(AwaitSemanticDirect<R, S>),
    SearchLocal(AwaitSemanticLocal<R>),
    Done(HitsView<H, R>),
}

impl<H, R, S> View for SemanticStep<H, R, S> {
    type V = SemanticView<H, R, S>;

    open spec fn view(&self) -> SemanticView<H, R, S> {
        match *self {
            SemanticStep::CheckGates(ask) => SemanticView::CheckGates(ask),
            SemanticStep::ReadRuntime(ask) => SemanticView::ReadRuntime(ask),
            SemanticStep::Acquire(ask) => SemanticView::Acquire(ask),
            SemanticStep::ReadIdentity(ask) => SemanticView::ReadIdentity(ask),
            SemanticStep::ResolveBaseline(ask) => SemanticView::ResolveBaseline(ask),
            SemanticStep::Embed(ask) => SemanticView::Embed(ask),
            SemanticStep::Reacquire(ask) => SemanticView::Reacquire(ask),
            SemanticStep::SearchDirect(ask) => SemanticView::SearchDirect(ask),
            SemanticStep::SearchLocal(ask) => SemanticView::SearchLocal(ask),
            SemanticStep::Done(result) => SemanticView::Done(hits_view(result)),
        }
    }
}

#[derive(Debug, Clone, Copy, PartialEq, Eq, Structural)]
pub struct AwaitSemanticGates {
    pub scope: SearchScope,
}

#[derive(Debug, Clone, Copy, PartialEq, Eq, Structural)]
pub struct AwaitRuntime {
    pub scope: SearchScope,
}

/// The status of the runtime, as far as a search goes by it.
#[derive(Debug, Clone, Copy, PartialEq, Eq, Structural)]
pub enum RuntimePhase {
    Failed,
    Indexing,
    Usable,
}

#[derive(Debug, Clone, Copy, PartialEq, Eq, Structural)]
pub struct AwaitSemanticEngine {
    pub scope: SearchScope,
    pub runtime: RuntimePhase,
}

#[derive(Debug, Clone, PartialEq, Eq)]
pub struct AwaitIdentity<R> {
    pub scope: SearchScope,
    pub engine: SemanticEngine<R>,
}

#[derive(Debug, Clone, PartialEq, Eq)]
pub struct AwaitResolution<R> {
    pub scope: SearchScope,
    pub engine: SemanticEngine<R>,
}

#[derive(Debug, Clone, PartialEq, Eq)]
pub struct AwaitEmbedding<R, S> {
    pub scope: SearchScope,
    pub roots: Option<R>,
    pub resolved: Option<ResolvedBaseline<S>>,
}

#[derive(Debug, Clone, PartialEq, Eq)]
pub struct AwaitReacquired<R, S> {
    pub scope: SearchScope,
    pub roots: Option<R>,
    pub resolved: Option<ResolvedBaseline<S>>,
}

#[derive(Debug, Clone, PartialEq, Eq)]
pub struct AwaitSemanticDirect<R, S> {
    pub scope: SearchScope,
    pub roots: Option<R>,
    pub resolved: ResolvedBaseline<S>,
}

#[derive(Debug, Clone, PartialEq, Eq)]
pub struct AwaitSemanticLocal<R> {
    pub roots: Option<R>,
}

/// The text of an engine that is busy.
pub open spec fn semantic_busy_text() -> Seq<char> {
    "Semantic search is busy (a long operation is holding the index). Lexical search is available in the meantime."@
}

/// The text of a semantic index that is not there yet.
pub open spec fn indexing_text() -> Seq<char> {
    "RAG semantic index is still building; lexical search is available in the meantime."@
}

/// The semantic modality has nothing to offer, for this reason.
pub open spec fn unavailable<H, R, S>(reason: UnavailableView) -> SemanticView<H, R, S> {
    SemanticView::Done(HitsView::Unavailable(reason))
}

fn unavailable_step<H, R, S>(reason: SemanticUnavailable) -> (step: SemanticStep<H, R, S>)
    ensures
        step@ == unavailable::<H, R, S>(reason@),
{
    SemanticStep::Done(Ok(CodeHits::Unavailable(reason)))
}

fn pending_step<H, R, S>(text: &str) -> (step: SemanticStep<H, R, S>)
    ensures
        step@ == SemanticView::<H, R, S>::Done(HitsView::Pending(text@)),
{
    SemanticStep::Done(Ok(CodeHits::Pending(text.to_owned())))
}

fn cancelled_step<H, R, S>() -> (step: SemanticStep<H, R, S>)
    ensures
        step@ == SemanticView::<H, R, S>::Done(HitsView::Cancelled),
{
    SemanticStep::Done(Err(SearchFailure::Cancelled))
}

fn poisoned_step<H, R, S>() -> (step: SemanticStep<H, R, S>)
    ensures
        step@ == SemanticView::<H, R, S>::Done(
            HitsView::Failed(plain_error(INTERNAL_ERROR, poisoned_text())),
        ),
{
    SemanticStep::Done(Err(SearchFailure::Error(engine_lock_poisoned_error())))
}

/// Starts a semantic search.
pub fn semantic_code_hits<H, R, S>(scope: SearchScope) -> (step: SemanticStep<H, R, S>)
    ensures
        step@ == SemanticView::<H, R, S>::CheckGates(AwaitSemanticGates { scope }),
{
    SemanticStep::CheckGates(AwaitSemanticGates { scope })
}

impl AwaitSemanticGates {
    pub open spec fn next<H, R, S>(self, gates: Result<(), McpError>) -> SemanticView<H, R, S> {
        match gates {
            Ok(_) => SemanticView::ReadRuntime(AwaitRuntime { scope: self.scope }),
            Err(error) => SemanticView::Done(HitsView::Failed(error@)),
        }
    }

    pub fn answer<H, R, S>(self, gates: Result<(), McpError>) -> (step: SemanticStep<H, R, S>)
        ensures
            step@ == self.next::<H, R, S>(gates),
    {
        match gates {
            Ok(_) => SemanticStep::ReadRuntime(AwaitRuntime { scope: self.scope }),
            Err(error) => SemanticStep::Done(Err(SearchFailure::Error(error))),
        }
    }
}

impl SemanticRuntimeStatus {
    /// The status as far as a search goes by it.
    pub open spec fn phase(self) -> RuntimePhase {
        match self {
            SemanticRuntimeStatus::Failed(_) => RuntimePhase::Failed,
            SemanticRuntimeStatus::Indexing => RuntimePhase::Indexing,
            _ => RuntimePhase::Usable,
        }
    }
}

impl AwaitRuntime {
    pub open spec fn next<H, R, S>(
        self,
        runtime: Result<SemanticRuntimeStatus, String>,
    ) -> SemanticView<H, R, S> {
        match runtime {
            Ok(status) => SemanticView::Acquire(
                AwaitSemanticEngine { scope: self.scope, runtime: status.phase() },
            ),
            Err(error) => SemanticView::Done(
                HitsView::Failed(
                    plain_error(INTERNAL_ERROR, "semantic runtime lock error: "@ + error@),
                ),
            ),
        }
    }

    /// The status of the runtime, or the error of its lock.
    pub fn answer<H, R, S>(
        self,
        runtime: Result<SemanticRuntimeStatus, String>,
    ) -> (step: SemanticStep<H, R, S>)
        ensures
            step@ == self.next::<H, R, S>(runtime),
    {
        match runtime {
            Ok(status) => {
                let runtime: RuntimePhase = match status {
                    SemanticRuntimeStatus::Failed(_) => RuntimePhase::Failed,
                    SemanticRuntimeStatus::Indexing => RuntimePhase::Indexing,
                    _ => RuntimePhase::Usable,
                };
                SemanticStep::Acquire(AwaitSemanticEngine { scope: self.scope, runtime })
            },
            Err(error) => {
                let mut message: String = "semantic runtime lock error: ".to_owned();
                message.append(error.as_str());
                SemanticStep::Done(Err(SearchFailure::Error(internal_error(message))))
            },
        }
    }
}

/// The step of a search that is about to leave the lock.
pub open spec fn leave_lock<H, R, S>(
    scope: SearchScope,
    engine: SemanticEngine<R>,
) -> SemanticView<H, R, S> {
    if !engine.has_embedder {
        unavailable(UnavailableView::NotConfigured)
    } else if scope.external {
        SemanticView::ResolveBaseline(AwaitResolution { scope, engine })
    } else if scope.remote() {
        unavailable(UnavailableView::BaselineRequired)
    } else {
        SemanticView::Embed(AwaitEmbedding { scope, roots: engine.roots, resolved: None })
    }
}

fn leave_lock_step<H, R, S>(scope: SearchScope, engine: SemanticEngine<R>) -> (step: SemanticStep<
    H,
    R,
    S,
>)
    ensures
        step@ == leave_lock::<H, R, S>(scope, engine),
{
    if !engine.has_embedder {
        unavailable_step(SemanticUnavailable::NotConfigured)
    } else if scope.external {
        SemanticStep::ResolveBaseline(AwaitResolution { scope, engine })
    } else if scope.is_remote() {
        unavailable_step(SemanticUnavailable::BaselineRequired)
    } else {
        SemanticStep::Embed(AwaitEmbedding { scope, roots: engine.roots, resolved: None })
    }
}

impl AwaitSemanticEngine {
    pub open spec fn next<H, R, S>(
        self,
        engine: Result<Option<SemanticEngine<R>>, AcquireFailure>,
    ) -> SemanticView<H, R, S> {
        match engine {
            Err(AcquireFailure::Poisoned) => SemanticView::Done(
                HitsView::Failed(plain_error(INTERNAL_ERROR, poisoned_text())),
            ),
            Err(AcquireFailure::Cancelled) => SemanticView::Done(HitsView::Cancelled),
            Err(AcquireFailure::TimedOut) => SemanticView::Done(
                HitsView::Pending(semantic_busy_text()),
            ),
            Ok(None) => SemanticView::Done(HitsView::Pending(building_text())),
            Ok(Some(engine)) => match self.runtime {
                RuntimePhase::Failed => unavailable(UnavailableView::RuntimeFailed),
                RuntimePhase::Indexing => SemanticView::Done(HitsView::Pending(indexing_text())),
                RuntimePhase::Usable => if !engine.has_semantic {
                    unavailable(UnavailableView::NotConfigured)
                } else if self.scope.external {
                    SemanticView::ReadIdentity(AwaitIdentity { scope: self.scope, engine })
                } else {
                    leave_lock(self.scope, engine)
                },
            },
        }
    }

    /// The lock was had, with or without an engine behind it, or not.
    pub fn answer<H, R, S>(
        self,
        engine: Result<Option<SemanticEngine<R>>, AcquireFailure>,
    ) -> (step: SemanticStep<H, R, S>)
        ensures
            step@ == self.next::<H, R, S>(engine),
    {
        match engine {
            Err(AcquireFailure::Poisoned) => poisoned_step(),
            Err(AcquireFailure::Cancelled) => cancelled_step(),
            Err(AcquireFailure::TimedOut) => pending_step(
                "Semantic search is busy (a long operation is holding the index). Lexical search is available in the meantime.",
            ),
            Ok(None) => pending_step("Search index is being built, please try again in a moment."),
            Ok(Some(engine)) => match self.runtime {
                RuntimePhase::Failed => unavailable_step(SemanticUnavailable::RuntimeFailed),
                RuntimePhase::Indexing => pending_step(
                    "RAG semantic index is still building; lexical search is available in the meantime.",
                ),
                RuntimePhase::Usable => if !engine.has_semantic {
                    unavailable_step(SemanticUnavailable::NotConfigured)
                } else if self.scope.external {
                    SemanticStep::ReadIdentity(AwaitIdentity { scope: self.scope, engine })
                } else {
                    leave_lock_step(self.scope, engine)
                },
            },
        }
    }
}

/// The model that the reader embeds with, as a text.
pub open spec fn reader_model(model: Option<String>) -> Seq<char> {
    match model {
        Some(model) => model@,
        None => "unset"@,
    }
}

/// The dimension that the reader embeds with, as a text.
pub open spec fn reader_dim(dim: Option<u64>) -> Seq<char> {
    match dim {
        Some(dim) => decimal_text(dim as nat),
        None => "unset"@,
    }
}

/// The vectors of the baseline are of another kind than those of the reader.
pub open spec fn mismatched<R>(
    engine: SemanticEngine<R>,
    baseline_model: Seq<char>,
    baseline_dim: u64,
) -> bool {
    reader_model(engine.model) != baseline_model || engine.dim != Some(baseline_dim)
}

/// What a reader with the wrong vectors is told.
pub open spec fn mismatch_text<R>(
    engine: SemanticEngine<R>,
    baseline_model: Seq<char>,
    baseline_dim: u64,
) -> Seq<char> {
    "semantic skipped: this baseline was indexed with model '"@ + baseline_model + "' (dim "@
        + decimal_text(baseline_dim as nat)
        + "), but the reader is configured with model '"@ + reader_model(engine.model) + "' (dim "@
        + reader_dim(engine.dim)
        + "); set EMBEDDING_MODEL/EMBEDDING_DIM (or [search.baseline.embedding] in bsl-analyzer.toml) to match and restart"@
}

impl<R> AwaitIdentity<R> {
    pub open spec fn next<H, S>(
        self,
        identity: Result<Option<(String, u64)>, BaselineCall<()>>,
    ) -> SemanticView<H, R, S> {
        match identity {
            Ok(Some((model, dim))) => if mismatched(self.engine, model@, dim) {
                unavailable(
                    UnavailableView::IdentityMismatch(mismatch_text(self.engine, model@, dim)),
                )
            } else {
                leave_lock(self.scope, self.engine)
            },
            Ok(None) => leave_lock(self.scope, self.engine),
            Err(BaselineCall::Withdrawn) => SemanticView::Done(HitsView::Cancelled),
            Err(BaselineCall::Failed(_)) => leave_lock(self.scope, self.engine),
        }
    }

    /// The identity of the vectors in the baseline. A baseline that does not say is searched.
    pub fn answer<H, S>(
        self,
        identity: Result<Option<(String, u64)>, BaselineCall<()>>,
    ) -> (step: SemanticStep<H, R, S>)
        ensures
            step@ == self.next::<H, S>(identity),
    {
        match identity {
            Ok(Some((model, dim))) => {
                let same_dim: bool = match self.engine.dim {
                    Some(reader) => reader == dim,
                    None => false,
                };
                let reader: String = match &self.engine.model {
                    Some(model) => model.clone(),
                    None => "unset".to_owned(),
                };
                if !same_text(reader.as_str(), model.as_str()) || !same_dim {
                    let mut text: String =
                        "semantic skipped: this baseline was indexed with model '".to_owned();
                    text.append(model.as_str());
                    text.append("' (dim ");
                    text.append(decimal(dim).as_str());
                    text.append("), but the reader is configured with model '");
                    text.append(reader.as_str());
                    text.append("' (dim ");
                    match self.engine.dim {
                        Some(dim) => {
                            text.append(decimal(dim).as_str());
                        },
                        None => {
                            text.append("unset");
                        },
                    }
                    text.append(
                        "); set EMBEDDING_MODEL/EMBEDDING_DIM (or [search.baseline.embedding] in bsl-analyzer.toml) to match and restart",
                    );
                    return unavailable_step(SemanticUnavailable::IdentityMismatch(text));
                }
                leave_lock_step(self.scope, self.engine)
            },
            Ok(None) => leave_lock_step(self.scope, self.engine),
            Err(BaselineCall::Withdrawn) => cancelled_step(),
            Err(BaselineCall::Failed(_)) => leave_lock_step(self.scope, self.engine),
        }
    }
}

/// What the resolution of the baseline amounts to.
pub open spec fn resolved_direct<S>(
    resolution: Result<Option<S>, BaselineCall<BaselineError>>,
    model_id: Option<String>,
    dim: Option<u64>,
) -> DirectResolve<S> {
    match resolution {
        Ok(None) => DirectResolve::Unavailable,
        Err(BaselineCall::Withdrawn) => DirectResolve::Cancelled,
        Err(BaselineCall::Failed(BaselineError::Terminal(error))) => DirectResolve::Terminal(error),
        Err(BaselineCall::Failed(BaselineError::Transient)) => DirectResolve::Unavailable,
        Ok(Some(snapshot)) => match (model_id, dim) {
            (Some(model_id), Some(dim)) => DirectResolve::Ready(
                ResolvedBaseline { snapshot, model_id, dim },
            ),
            _ => DirectResolve::Unavailable,
        },
    }
}

/// What the resolution of the baseline amounts to: a snapshot can be searched only with vectors
/// whose model and dimension are known.
pub fn resolve_direct_semantic<S>(
    resolution: Result<Option<S>, BaselineCall<BaselineError>>,
    model_id: Option<String>,
    dim: Option<u64>,
) -> (resolved: DirectResolve<S>)
    ensures
        resolved == resolved_direct(resolution, model_id, dim),
{
    let snapshot: S = match resolution {
        Ok(Some(snapshot)) => snapshot,
        Ok(None) => {
            return DirectResolve::Unavailable;
        },
        Err(BaselineCall::Withdrawn) => {
            return DirectResolve::Cancelled;
        },
        Err(BaselineCall::Failed(BaselineError::Terminal(error))) => {
            return DirectResolve::Terminal(error);
        },
        Err(BaselineCall::Failed(BaselineError::Transient)) => {
            return DirectResolve::Unavailable;
        },
    };
    match (model_id, dim) {
        (Some(model_id), Some(dim)) => DirectResolve::Ready(
            ResolvedBaseline { snapshot, model_id, dim },
        ),
        _ => DirectResolve::Unavailable,
    }
}

impl<R> AwaitResolution<R> {
    pub open spec fn next<H, S>(
        self,
        resolution: Result<Option<S>, BaselineCall<BaselineError>>,
    ) -> SemanticView<H, R, S> {
        match resolved_direct(resolution, self.engine.model, self.engine.dim) {
            DirectResolve::Ready(resolved) => SemanticView::Embed(
                AwaitEmbedding {
                    scope: self.scope,
                    roots: self.engine.roots,
                    resolved: Some(resolved),
                },
            ),
            DirectResolve::Terminal(error) => SemanticView::Done(HitsView::Failed(error@)),
            DirectResolve::Cancelled => SemanticView::Done(HitsView::Cancelled),
            DirectResolve::Unavailable => if self.scope.remote() {
                unavailable(UnavailableView::BaselineNotReady)
            } else {
                SemanticView::Embed(
                    AwaitEmbedding { scope: self.scope, roots: self.engine.roots, resolved: None },
                )
            },
        }
    }

    pub fn answer<H, S>(
        self,
        resolution: Result<Option<S>, BaselineCall<BaselineError>>,
    ) -> (step: SemanticStep<H, R, S>)
        ensures
            step@ == self.next::<H, S>(resolution),
    {
        match resolve_direct_semantic(resolution, self.engine.model, self.engine.dim) {
            DirectResolve::Ready(resolved) => SemanticStep::Embed(
                AwaitEmbedding {
                    scope: self.scope,
                    roots: self.engine.roots,
                    resolved: Some(resolved),
                },
            ),
            DirectResolve::Terminal(error) => SemanticStep::Done(Err(SearchFailure::Error(error))),
            DirectResolve::Cancelled => cancelled_step(),
            DirectResolve::Unavailable => if self.scope.is_remote() {
                unavailable_step(SemanticUnavailable::BaselineNotReady)
            } else {
                SemanticStep::Embed(
                    AwaitEmbedding { scope: self.scope, roots: self.engine.roots, resolved: None },
                )
            },
        }
    }
}

impl<R, S> AwaitEmbedding<R, S> {
    pub open spec fn next<H>(self, embedded: EmbedAnswer) -> SemanticView<H, R, S> {
        match embedded {
            EmbedAnswer::Embedded => SemanticView::Reacquire(
                AwaitReacquired { scope: self.scope, roots: self.roots, resolved: self.resolved },
            ),
            EmbedAnswer::EmbedderFailed(detail) => unavailable(
                UnavailableView::EmbedderUnavailable(detail@),
            ),
            EmbedAnswer::Failed(error) => SemanticView::Done(
                HitsView::Failed(plain_error(INTERNAL_ERROR, search_error_text(error@))),
            ),
            EmbedAnswer::Withdrawn => SemanticView::Done(HitsView::Cancelled),
        }
    }

    /// An embedder that fails takes the semantic modality away and nothing else.
    pub fn answer<H>(self, embedded: EmbedAnswer) -> (step: SemanticStep<H, R, S>)
        ensures
            step@ == self.next::<H>(embedded),
    {
        match embedded {
            EmbedAnswer::Embedded => SemanticStep::Reacquire(
                AwaitReacquired { scope: self.scope, roots: self.roots, resolved: self.resolved },
            ),
            EmbedAnswer::EmbedderFailed(detail) => unavailable_step(
                SemanticUnavailable::EmbedderUnavailable(detail),
            ),
            EmbedAnswer::Failed(error) => SemanticStep::Done(Err(search_error(error.as_str()))),
            EmbedAnswer::Withdrawn => cancelled_step(),
        }
    }
}

impl<R, S> AwaitReacquired<R, S> {
    pub open spec fn next<H>(self, engine: Result<Option<bool>, AcquireFailure>) -> SemanticView<
        H,
        R,
        S,
    > {
        match engine {
            Err(AcquireFailure::Poisoned) => SemanticView::Done(
                HitsView::Failed(plain_error(INTERNAL_ERROR, poisoned_text())),
            ),
            Err(AcquireFailure::Cancelled) => SemanticView::Done(HitsView::Cancelled),
            Err(AcquireFailure::TimedOut) => SemanticView::Done(
                HitsView::Pending(semantic_busy_text()),
            ),
            Ok(None) => SemanticView::Done(HitsView::Pending(building_text())),
            Ok(Some(false)) => unavailable(UnavailableView::NotConfigured),
            Ok(Some(true)) => match self.resolved {
                Some(resolved) => SemanticView::SearchDirect(
                    AwaitSemanticDirect { scope: self.scope, roots: self.roots, resolved },
                ),
                None => if self.scope.remote() {
                    unavailable(UnavailableView::BaselineRequired)
                } else {
                    SemanticView::SearchLocal(AwaitSemanticLocal { roots: self.roots })
                },
            },
        }
    }

    /// The lock was had again; the answer says whether there is an engine, and whether it still
    /// searches by meaning.
    pub fn answer<H>(self, engine: Result<Option<bool>, AcquireFailure>) -> (step: SemanticStep<
        H,
        R,
        S,
    >)
        ensures
            step@ == self.next::<H>(engine),
    {
        match engine {
            Err(AcquireFailure::Poisoned) => poisoned_step(),
            Err(AcquireFailure::Cancelled) => cancelled_step(),
            Err(AcquireFailure::TimedOut) => pending_step(
                "Semantic search is busy (a long operation is holding the index). Lexical search is available in the meantime.",
            ),
            Ok(None) => pending_step("Search index is being built, please try again in a moment."),
            Ok(Some(false)) => unavailable_step(SemanticUnavailable::NotConfigured),
            Ok(Some(true)) => match self.resolved {
                Some(resolved) => SemanticStep::SearchDirect(
                    AwaitSemanticDirect { scope: self.scope, roots: self.roots, resolved },
                ),
                None => if self.scope.is_remote() {
                    unavailable_step(SemanticUnavailable::BaselineRequired)
                } else {
                    SemanticStep::SearchLocal(AwaitSemanticLocal { roots: self.roots })
                },
            },
        }
    }
}

impl<R, S> AwaitSemanticDirect<R, S> {
    pub open spec fn next<H>(self, direct: DirectResult<H>) -> SemanticView<H, R, S> {
        match direct {
            DirectResult::Found(hits) => SemanticView::Done(HitsView::Ready(hits, self.roots)),
            DirectResult::Terminal(error) => SemanticView::Done(HitsView::Failed(error@)),
            DirectResult::Cancelled => SemanticView::Done(HitsView::Cancelled),
            DirectResult::Unavailable => if self.scope.remote() {
                unavailable(UnavailableView::BaselineNotReady)
            } else {
                SemanticView::SearchLocal(AwaitSemanticLocal { roots: self.roots })
            },
        }
    }

    /// A baseline that cannot be asked is replaced by the local index, unless the workspace is
    /// searched in the shared baseline alone.
    pub fn answer<H>(self, direct: DirectResult<H>) -> (step: SemanticStep<H, R, S>)
        ensures
            step@ == self.next::<H>(direct),
    {
        match direct {
            DirectResult::Found(hits) => SemanticStep::Done(
                Ok(CodeHits::Ready { hits, roots: self.roots }),
            ),
            DirectResult::Terminal(error) => SemanticStep::Done(Err(SearchFailure::Error(error))),
            DirectResult::Cancelled => cancelled_step(),
            DirectResult::Unavailable => if self.scope.is_remote() {
                unavailable_step(SemanticUnavailable::BaselineNotReady)
            } else {
                SemanticStep::SearchLocal(AwaitSemanticLocal { roots: self.roots })
            },
        }
    }
}

impl<R> AwaitSemanticLocal<R> {
    pub open spec fn next<H, S>(self, searched: Result<Vec<H>, String>) -> SemanticView<H, R, S> {
        match searched {
            Ok(hits) => SemanticView::Done(HitsView::Ready(hits, self.roots)),
            Err(error) => SemanticView::Done(
                HitsView::Failed(plain_error(INTERNAL_ERROR, search_error_text(error@))),
            ),
        }
    }

    pub fn answer<H, S>(self, searched: Result<Vec<H>, String>) -> (step: SemanticStep<H, R, S>)
        ensures
            step@ == self.next::<H, S>(searched),
    {
        match searched {
            Ok(hits) => SemanticStep::Done(Ok(CodeHits::Ready { hits, roots: self.roots })),
            Err(error) => SemanticStep::Done(Err(search_error(error.as_str()))),
        }
    }
}

/// What a host answers to every question that a semantic search may ask.
pub struct SemanticAnswers<H, R, S> {
    pub gates: Result<(), McpError>,
    pub runtime: Result<SemanticRuntimeStatus, String>,
    pub engine: Result<Option<SemanticEngine<R>>, AcquireFailure>,
    pub identity: Result<Option<(String, u64)>, BaselineCall<()>>,
    pub resolution: Result<Option<S>, BaselineCall<BaselineError>>,
    pub embedded: EmbedAnswer,
    pub engine_again: Result<Option<bool>, AcquireFailure>,
    pub direct: DirectResult<H>,
    pub local: Result<Vec<H>, String>,
}

/// The step after `step`, for a host with these answers.
pub open spec fn semantic_answered<H, R, S>(
    step: SemanticView<H, R, S>,
    answers: SemanticAnswers<H, R, S>,
) -> SemanticView<H, R, S> {
    match step {
        SemanticView::CheckGates(ask) => ask.next::<H, R, S>(answers.gates),
        SemanticView::ReadRuntime(ask) => ask.next::<H, R, S>(answers.runtime),
        SemanticView::Acquire(ask) => ask.next::<H, R, S>(answers.engine),
        SemanticView::ReadIdentity(ask) => ask.next::<H, S>(answers.identity),
        SemanticView::ResolveBaseline(ask) => ask.next::<H, S>(answers.resolution),
        SemanticView::Embed(ask) => ask.next::<H>(answers.embedded),
        SemanticView::Reacquire(ask) => ask.next::<H>(answers.engine_again),
        SemanticView::SearchDirect(ask) => ask.next::<H>(answers.direct),
        SemanticView::SearchLocal(ask) => ask.next::<H, S>(answers.local),
        SemanticView::Done(result) => SemanticView::Done(result),
    }
}

/// `n` answers after `step`.
pub open spec fn semantic_after<H, R, S>(
    step: SemanticView<H, R, S>,
    answers: SemanticAnswers<H, R, S>,
    n: nat,
) -> SemanticView<H, R, S>
    decreases n,
{
    if n == 0 {
        step
    } else {
        semantic_answered(semantic_after(step, answers, (n - 1) as nat), answers)
    }
}

/// A whole semantic search: it asks at most nine questions.
pub open spec fn whole_semantic<H, R, S>(
    scope: SearchScope,
    answers: SemanticAnswers<H, R, S>,
) -> SemanticView<H, R, S> {
    semantic_after(SemanticView::CheckGates(AwaitSemanticGates { scope }), answers, 9)
}

/// How many questions a search may still ask.
pub open spec fn questions_left<H, R, S>(step: SemanticView<H, R, S>) -> nat {
    match step {
        SemanticView::CheckGates(_) => 9,
        SemanticView::ReadRuntime(_) => 8,
        SemanticView::Acquire(_) => 7,
        SemanticView::ReadIdentity(_) => 6,
        SemanticView::ResolveBaseline(_) => 5,
        SemanticView::Embed(_) => 4,
        SemanticView::Reacquire(_) => 3,
        SemanticView::SearchDirect(_) => 2,
        SemanticView::SearchLocal(_) => 1,
        SemanticView::Done(_) => 0,
    }
}

proof fn lemma_every_answer_leaves_fewer_questions<H, R, S>(
    step: SemanticView<H, R, S>,
    answers: SemanticAnswers<H, R, S>,
    n: nat,
)
    ensures
        questions_left(semantic_after(step, answers, n)) + n <= questions_left(step)
            || questions_left(semantic_after(step, answers, n)) == 0,
    decreases n,
{
    if n > 0 {
        lemma_every_answer_leaves_fewer_questions(step, answers, (n - 1) as nat);
        let before = semantic_after(step, answers, (n - 1) as nat);
        assert(questions_left(semantic_answered(before, answers)) < questions_left(before)
            || questions_left(before) == 0);
    }
}

/// A semantic search ends after at most nine answers.
pub proof fn a_semantic_search_ends<H, R, S>(
    scope: SearchScope,
    answers: SemanticAnswers<H, R, S>,
)
    ensures
        whole_semantic(scope, answers) is Done,
{
    lemma_every_answer_leaves_fewer_questions(
        SemanticView::CheckGates(AwaitSemanticGates { scope }),
        answers,
        9,
    );
}

/// While the runtime has failed or is still indexing, the search says so and embeds nothing:
/// what the embedder and the indexes would answer makes no difference.
#[verifier::spinoff_prover]
#[verifier::rlimit(60)]
pub proof fn an_unready_runtime_is_not_searched<H, R, S>(
    scope: SearchScope,
    answers: SemanticAnswers<H, R, S>,
    engine: SemanticEngine<R>,
)
    requires
        answers.gates is Ok,
        answers.engine == Ok::<Option<SemanticEngine<R>>, AcquireFailure>(Some(engine)),
    ensures
        answers.runtime matches Ok(status) ==> (status is Failed ==> whole_semantic(scope, answers)
            == SemanticView::<H, R, S>::Done(
            HitsView::Unavailable(UnavailableView::RuntimeFailed),
        )) && (status is Indexing ==> whole_semantic(scope, answers) == SemanticView::<
            H,
            R,
            S,
        >::Done(
            HitsView::Pending(
                "RAG semantic index is still building; lexical search is available in the meantime."@,
            ),
        )),
{
    reveal_with_fuel(semantic_after, 10);
}

/// A workspace that is searched in the shared baseline is never answered from the local index:
/// what the local index holds makes no difference.
#[verifier::spinoff_prover]
#[verifier::rlimit(60)]
pub proof fn a_shared_baseline_is_never_replaced_by_local_vectors<H, R, S>(
    scope: SearchScope,
    answers: SemanticAnswers<H, R, S>,
    other_local: Result<Vec<H>, String>,
)
    requires
        scope.remote(),
    ensures
        whole_semantic(scope, answers) == whole_semantic(
            scope,
            SemanticAnswers { local: other_local, ..answers },
        ),
{
    reveal_with_fuel(semantic_after, 10);
}

/// Vectors of another model or dimension are never searched with: where the baseline records an
/// identity, a reader with another model, or with another dimension, or without one, is told so
/// before its query is embedded. Either difference alone is enough. A reader that names no model
/// is one whose model is called "unset".
#[verifier::spinoff_prover]
#[verifier::rlimit(60)]
pub proof fn mismatched_vectors_are_never_searched_with<H, R, S>(
    scope: SearchScope,
    answers: SemanticAnswers<H, R, S>,
    engine: SemanticEngine<R>,
    model: String,
    dim: u64,
)
    requires
        scope.external,
        answers.gates is Ok,
        answers.runtime matches Ok(status) && !(status is Failed) && !(status is Indexing),
        answers.engine == Ok::<Option<SemanticEngine<R>>, AcquireFailure>(Some(engine)),
        engine.has_semantic,
        answers.identity == Ok::<Option<(String, u64)>, BaselineCall<()>>(Some((model, dim))),
        ({
            ||| engine.model matches Some(reader) && reader@ != model@
            ||| engine.model is None && "unset"@ != model@
            ||| engine.dim matches Some(reader) && reader != dim
            ||| engine.dim is None
        }),
    ensures
        ({
            let reader_model = match engine.model {
                Some(reader) => reader@,
                None => "unset"@,
            };
            let reader_dim = match engine.dim {
                Some(reader) => decimal_text(reader as nat),
                None => "unset"@,
            };
            whole_semantic(scope, answers) == SemanticView::<H, R, S>::Done(
                HitsView::Unavailable(
                    UnavailableView::IdentityMismatch(
                        "semantic skipped: this baseline was indexed with model '"@ + model@
                            + "' (dim "@ + decimal_text(dim as nat)
                            + "), but the reader is configured with model '"@ + reader_model
                            + "' (dim "@ + reader_dim
                            + "); set EMBEDDING_MODEL/EMBEDDING_DIM (or [search.baseline.embedding] in bsl-analyzer.toml) to match and restart"@,
                    ),
                ),
            )
        }),
{
    reveal_with_fuel(semantic_after, 10);
}

/// A reader is told of a mismatch only where there is one: where the baseline is connected,
/// records an identity, and the reader has another model or not exactly that dimension.
#[verifier::spinoff_prover]
#[verifier::rlimit(60)]
pub proof fn a_mismatch_is_told_only_where_there_is_one<H, R, S>(
    scope: SearchScope,
    answers: SemanticAnswers<H, R, S>,
)
    requires
        whole_semantic(scope, answers) matches SemanticView::Done(HitsView::Unavailable(reason))
            && reason is IdentityMismatch,
    ensures
        scope.external,
        answers.engine matches Ok(Some(engine)) && (answers.identity matches Ok(Some(recorded)) && {
            ||| engine.model matches Some(reader) && reader@ != recorded.0@
            ||| engine.model is None && "unset"@ != recorded.0@
            ||| engine.dim != Some(recorded.1)
        }),
{
    reveal_with_fuel(semantic_after, 10);
}

/// A search that nothing stands in the way of is answered with what was found, under the roots of
/// the engine: by the baseline where one is connected, its snapshot can be had and the reader has
/// both a model and a dimension, and by the local index where there is no such answer and the
/// workspace has one. A workspace that lives on the shared baseline is told that it needs one, or
/// that it is not ready.
pub proof fn a_search_by_meaning_is_answered_from_where_it_can_be<H, R, S>(
    scope: SearchScope,
    answers: SemanticAnswers<H, R, S>,
    engine: SemanticEngine<R>,
)
    requires
        answers.gates is Ok,
        answers.runtime matches Ok(status) && !(status is Failed) && !(status is Indexing),
        answers.engine == Ok::<Option<SemanticEngine<R>>, AcquireFailure>(Some(engine)),
        engine.has_semantic,
        engine.has_embedder,
        scope.external ==> {
            ||| answers.identity matches Ok(None)
            ||| answers.identity matches Err(BaselineCall::Failed(_))
            ||| answers.identity matches Ok(Some(recorded)) && engine.model matches Some(reader)
                && reader@ == recorded.0@ && engine.dim == Some(recorded.1)
        },
        answers.embedded is Embedded,
        answers.engine_again == Ok::<Option<bool>, AcquireFailure>(Some(true)),
    ensures
        ({
            let end = whole_semantic(scope, answers)->Done_0;
            let shared = scope.mode is PostgresRemoteOverlay;
            let resolved = scope.external && (answers.resolution matches Ok(Some(_)))
                && engine.model is Some && engine.dim is Some;
            let no_snapshot = scope.external && ((answers.resolution matches Ok(None)) || (
            answers.resolution matches Err(BaselineCall::Failed(BaselineError::Transient))) || (
            answers.resolution matches Ok(Some(_)) && (engine.model is None || engine.dim is None)));
            let locally = !shared && (!scope.external || no_snapshot || (resolved && answers.direct
                is Unavailable));
            &&& whole_semantic(scope, answers) is Done
            &&& resolved ==> {
                &&& answers.direct matches DirectResult::Found(hits) ==> end == HitsView::Ready(
                    hits,
                    engine.roots,
                )
                &&& answers.direct matches DirectResult::Terminal(error) ==> end == HitsView::<
                    H,
                    R,
                >::Failed(error@)
                &&& answers.direct is Cancelled ==> end is Cancelled
            }
            &&& locally ==> {
                &&& answers.local matches Ok(hits) ==> end == HitsView::Ready(hits, engine.roots)
                &&& answers.local matches Err(error) ==> (end matches HitsView::Failed(given)
                    && given.code == -32603 && given.reason_code is None && given.message == "search error: "@ + error@)
            }
            &&& shared && !scope.external ==> end == HitsView::<H, R>::Unavailable(
                UnavailableView::BaselineRequired,
            )
            &&& shared && (no_snapshot || (resolved && answers.direct is Unavailable)) ==> end
                == HitsView::<H, R>::Unavailable(UnavailableView::BaselineNotReady)
            &&& scope.external && (answers.resolution matches Err(BaselineCall::Withdrawn)) ==> end
                is Cancelled
            &&& scope.external ==> (answers.resolution matches Err(
                BaselineCall::Failed(BaselineError::Terminal(error)),
            ) ==> end == HitsView::<H, R>::Failed(error@))
        }),
{
    let start = SemanticView::<H, R, S>::CheckGates(AwaitSemanticGates { scope });
    let usable = AwaitSemanticEngine { scope, runtime: RuntimePhase::Usable };
    assert(semantic_after(start, answers, 0) == start);
    assert(semantic_after(start, answers, 1) == SemanticView::<H, R, S>::ReadRuntime(
        AwaitRuntime { scope },
    ));
    assert(semantic_after(start, answers, 2) == SemanticView::<H, R, S>::Acquire(usable));
    assert(semantic_after(start, answers, 3) == usable.next::<H, R, S>(answers.engine));
    a_semantic_search_ends(scope, answers);
    if scope.external {
        let ask = AwaitResolution { scope, engine };
        assert(semantic_after(start, answers, 4) == SemanticView::<H, R, S>::ResolveBaseline(ask));
        let step5 = semantic_after(start, answers, 5);
        assert(step5 == ask.next::<H, S>(answers.resolution));
        if step5 is Done {
            lemma_an_end_is_kept(start, answers, 5, 9);
        } else {
            let resolved = step5->Embed_0.resolved;
            let again = AwaitReacquired { scope, roots: engine.roots, resolved };
            assert(semantic_after(start, answers, 6) == SemanticView::<H, R, S>::Reacquire(again));
            let step7 = semantic_after(start, answers, 7);
            assert(step7 == again.next::<H>(answers.engine_again));
            let step8 = semantic_after(start, answers, 8);
            assert(step8 == semantic_answered(step7, answers));
            assert(semantic_after(start, answers, 9) == semantic_answered(step8, answers));
        }
    } else if !(scope.mode is PostgresRemoteOverlay) {
        let again = AwaitReacquired::<R, S> { scope, roots: engine.roots, resolved: None };
        assert(semantic_after(start, answers, 4) == SemanticView::<H, R, S>::Reacquire(again));
        let local = AwaitSemanticLocal { roots: engine.roots };
        assert(semantic_after(start, answers, 5) == SemanticView::<H, R, S>::SearchLocal(local));
        assert(semantic_after(start, answers, 6) is Done);
        lemma_an_end_is_kept(start, answers, 6, 9);
    } else {
        lemma_an_end_is_kept(start, answers, 3, 9);
    }
}

/// A shared baseline that cannot serve the search is found out before the query is embedded:
/// what the embedder would answer makes no difference.
#[verifier::spinoff_prover]
#[verifier::rlimit(60)]
pub proof fn a_baseline_that_is_not_ready_costs_no_embedding<H, R, S>(
    scope: SearchScope,
    answers: SemanticAnswers<H, R, S>,
    other_embedded: EmbedAnswer,
)
    requires
        scope.remote(),
        !scope.external || !(answers.resolution is Ok && answers.resolution->Ok_0 is Some),
    ensures
        whole_semantic(scope, answers) == whole_semantic(
            scope,
            SemanticAnswers { embedded: other_embedded, ..answers },
        ),
{
    reveal_with_fuel(semantic_after, 10);
}

/// The question is a wait, and the request is cancelled while it waits.
pub open spec fn cancelled_at<H, R, S>(
    step: SemanticView<H, R, S>,
    answers: SemanticAnswers<H, R, S>,
) -> bool {
    match step {
        SemanticView::Acquire(_) => answers.engine matches Err(AcquireFailure::Cancelled),
        SemanticView::ReadIdentity(_) => answers.identity matches Err(BaselineCall::Withdrawn),
        SemanticView::ResolveBaseline(_) => answers.resolution matches Err(BaselineCall::Withdrawn),
        SemanticView::Embed(_) => answers.embedded is Withdrawn,
        SemanticView::Reacquire(_) => answers.engine_again matches Err(AcquireFailure::Cancelled),
        SemanticView::SearchDirect(_) => answers.direct is Cancelled,
        _ => false,
    }
}

proof fn lemma_an_end_is_kept<H, R, S>(
    step: SemanticView<H, R, S>,
    answers: SemanticAnswers<H, R, S>,
    n: nat,
    m: nat,
)
    requires
        n <= m,
        semantic_after(step, answers, n) is Done,
    ensures
        semantic_after(step, answers, m) == semantic_after(step, answers, n),
    decreases m,
{
    if n < m {
        lemma_an_end_is_kept(step, answers, n, (m - 1) as nat);
    }
}

/// Wherever a request is cancelled while it waits, for the lock, the baseline or the embedder,
/// the search ends cancelled, and not with an invitation to ask again.
pub proof fn a_cancelled_semantic_search_is_cancelled<H, R, S>(
    scope: SearchScope,
    answers: SemanticAnswers<H, R, S>,
    n: nat,
)
    requires
        cancelled_at(
            semantic_after(SemanticView::CheckGates(AwaitSemanticGates { scope }), answers, n),
            answers,
        ),
    ensures
        whole_semantic(scope, answers) == SemanticView::<H, R, S>::Done(HitsView::Cancelled),
{
    let start = SemanticView::<H, R, S>::CheckGates(AwaitSemanticGates { scope });
    lemma_every_answer_leaves_fewer_questions(start, answers, n);
    assert(n < 9);
    assert(semantic_after(start, answers, n + 1) == semantic_answered(
        semantic_after(start, answers, n),
        answers,
    ));
    lemma_an_end_is_kept(start, answers, n + 1, 9);
}

/// A semantic search first asks whether the workspace may be searched, then for the status of the
/// runtime, then for the engine, each time with the scope that it was started with.
pub proof fn a_semantic_search_begins_at_the_gates<H, R, S>(
    scope: SearchScope,
    first: SemanticStep<H, R, S>,
    ask: AwaitSemanticGates,
    gates: Result<(), McpError>,
    step: SemanticStep<H, R, S>,
)
    requires
        call_ensures(semantic_code_hits::<H, R, S>, (scope,), first),
        call_ensures(AwaitSemanticGates::answer::<H, R, S>, (ask, gates), step),
    ensures
        first matches SemanticStep::CheckGates(next) && next.scope == scope,
        gates is Ok <==> step is ReadRuntime,
        step matches SemanticStep::ReadRuntime(next) ==> next.scope == ask.scope,
        gates matches Err(error) ==> (step matches SemanticStep::Done(end) && ends_with(
            end,
            error,
        )),
{
}

/// The runtime is remembered as failed or as indexing exactly where it is, and is usable in every
/// other status. A status that cannot be read is an error of the server.
pub proof fn the_status_of_the_runtime_is_remembered<H, R, S>(
    ask: AwaitRuntime,
    runtime: Result<SemanticRuntimeStatus, String>,
    step: SemanticStep<H, R, S>,
)
    requires
        call_ensures(AwaitRuntime::answer::<H, R, S>, (ask, runtime), step),
    ensures
        runtime matches Ok(status) ==> (step matches SemanticStep::Acquire(next) && {
            &&& next.scope == ask.scope
            &&& next.runtime is Failed <==> status is Failed
            &&& next.runtime is Indexing <==> status is Indexing
            &&& next.runtime is Usable <==> status is Disabled || status is Ready || status
                is OverlaySyncing
        }),
        runtime matches Err(error) ==> (step matches SemanticStep::Done(end) && ends_broken(
            end,
            "semantic runtime lock error: "@ + error@,
        )),
{
}

/// An engine that can be had is searched by meaning only where the runtime is usable and the
/// engine does so. The identity of a connected baseline is then looked at first; without one the
/// search goes on with an embedder, and locally, and is told which of the two is missing.
pub proof fn only_a_usable_engine_is_searched_by_meaning<H, R, S>(
    ask: AwaitSemanticEngine,
    engine: Result<Option<SemanticEngine<R>>, AcquireFailure>,
    step: SemanticStep<H, R, S>,
)
    requires
        call_ensures(AwaitSemanticEngine::answer::<H, R, S>, (ask, engine), step),
    ensures
        engine matches Err(AcquireFailure::Poisoned) ==> (step matches SemanticStep::Done(end)
            && ends_broken(
            end,
            "search engine lock is poisoned (a prior operation panicked); restart the MCP server"@,
        )),
        engine matches Err(AcquireFailure::Cancelled) ==> (step matches SemanticStep::Done(end)
            && ends_cancelled(end)),
        engine matches Err(AcquireFailure::TimedOut) ==> (step matches SemanticStep::Done(end)
            && ends_pending(
            end,
            "Semantic search is busy (a long operation is holding the index). Lexical search is available in the meantime."@,
        )),
        engine matches Ok(None) ==> (step matches SemanticStep::Done(end) && ends_pending(
            end,
            "Search index is being built, please try again in a moment."@,
        )),
        (engine matches Ok(Some(_))) && ask.runtime is Failed ==> (step matches SemanticStep::Done(
            end,
        ) && ends_unavailable(end, UnavailableView::RuntimeFailed)),
        (engine matches Ok(Some(_))) && ask.runtime is Indexing ==> (step
            matches SemanticStep::Done(end) && ends_pending(
            end,
            "RAG semantic index is still building; lexical search is available in the meantime."@,
        )),
        ask.runtime is Usable ==> (engine matches Ok(Some(found)) ==> {
            &&& step is ReadIdentity <==> found.has_semantic && ask.scope.external
            &&& step matches SemanticStep::ReadIdentity(next) ==> next.scope == ask.scope
                && next.engine == found
            &&& step is Embed <==> found.has_semantic && found.has_embedder && !ask.scope.external
                && ask.scope.mode is SqliteLocal
            &&& step matches SemanticStep::Embed(next) ==> next.scope == ask.scope && next.roots
                == found.roots && next.resolved is None
            &&& !found.has_semantic || (!found.has_embedder && !ask.scope.external) ==> (step
                matches SemanticStep::Done(end) && ends_unavailable(
                end,
                UnavailableView::NotConfigured,
            ))
            &&& found.has_semantic && found.has_embedder && !ask.scope.external && ask.scope.mode
                is PostgresRemoteOverlay ==> (step matches SemanticStep::Done(end)
                && ends_unavailable(end, UnavailableView::BaselineRequired))
        }),
{
}

/// The identity of the baseline lets a reader pass exactly where it has the model and the
/// dimension that are recorded, or where nothing is recorded or could be read. A reader that
/// passes goes on with the engine it has; one with another model, or not exactly the dimension, is
/// told both identities.
pub proof fn the_identity_of_the_baseline_lets_only_its_own_readers_pass<H, R, S>(
    ask: AwaitIdentity<R>,
    identity: Result<Option<(String, u64)>, BaselineCall<()>>,
    step: SemanticStep<H, R, S>,
)
    requires
        call_ensures(AwaitIdentity::<R>::answer::<H, S>, (ask, identity), step),
    ensures
        ({
            let reader_model = match ask.engine.model {
                Some(reader) => reader@,
                None => "unset"@,
            };
            let reader_dim = match ask.engine.dim {
                Some(reader) => decimal_text(reader as nat),
                None => "unset"@,
            };
            let other = identity matches Ok(Some(recorded)) && (reader_model != recorded.0@
                || ask.engine.dim != Some(recorded.1));
            let withdrawn = identity matches Err(BaselineCall::Withdrawn);
            let passes = !other && !withdrawn;
            let local = ask.scope.mode is SqliteLocal;
            &&& other ==> (step matches SemanticStep::Done(end) && ends_unavailable(
                end,
                UnavailableView::IdentityMismatch(
                    "semantic skipped: this baseline was indexed with model '"@
                        + identity->Ok_0->Some_0.0@ + "' (dim "@ + decimal_text(
                        identity->Ok_0->Some_0.1 as nat,
                    ) + "), but the reader is configured with model '"@ + reader_model + "' (dim "@
                        + reader_dim
                        + "); set EMBEDDING_MODEL/EMBEDDING_DIM (or [search.baseline.embedding] in bsl-analyzer.toml) to match and restart"@,
                ),
            ))
            &&& withdrawn ==> (step matches SemanticStep::Done(end) && ends_cancelled(end))
            &&& passes && !ask.engine.has_embedder ==> (step matches SemanticStep::Done(end)
                && ends_unavailable(end, UnavailableView::NotConfigured))
            &&& passes && ask.engine.has_embedder && ask.scope.external ==> (step
                matches SemanticStep::ResolveBaseline(next) && next.scope == ask.scope
                && next.engine == ask.engine)
            &&& passes && ask.engine.has_embedder && !ask.scope.external && !local ==> (step
                matches SemanticStep::Done(end) && ends_unavailable(
                end,
                UnavailableView::BaselineRequired,
            ))
            &&& passes && ask.engine.has_embedder && !ask.scope.external && local ==> (step
                matches SemanticStep::Embed(next) && next.scope == ask.scope && next.roots
                == ask.engine.roots && next.resolved is None)
        }),
{
}

/// A snapshot of the baseline is searched with the model and the dimension of the reader, and only
/// where both are known. Without them, or without a snapshot, there is no direct search; a failure
/// for good is its own error, and a withdrawn request is withdrawn.
pub proof fn a_snapshot_is_searched_with_the_readers_vectors<S>(
    resolution: Result<Option<S>, BaselineCall<BaselineError>>,
    model_id: Option<String>,
    dim: Option<u64>,
    resolved: DirectResolve<S>,
)
    requires
        call_ensures(resolve_direct_semantic::<S>, (resolution, model_id, dim), resolved),
    ensures
        resolved is Ready <==> (resolution matches Ok(Some(_))) && model_id is Some && dim is Some,
        resolved matches DirectResolve::Ready(ready) ==> Some(ready.snapshot) == resolution->Ok_0
            && Some(ready.model_id) == model_id && Some(ready.dim) == dim,
        resolved is Cancelled <==> (resolution matches Err(BaselineCall::Withdrawn)),
        resolution matches Err(BaselineCall::Failed(BaselineError::Terminal(error))) ==> (resolved
            matches DirectResolve::Terminal(given) && given == error),
        resolved is Terminal <==> (resolution matches Err(
            BaselineCall::Failed(BaselineError::Terminal(_)),
        )),
{
}

/// The query is embedded for the snapshot where one was resolved, and else for the local index
/// where the workspace has one; a workspace that lives on the shared baseline is told that it is
/// not ready, before anything is embedded.
pub proof fn the_query_is_embedded_for_what_can_be_searched<H, R, S>(
    ask: AwaitResolution<R>,
    resolution: Result<Option<S>, BaselineCall<BaselineError>>,
    step: SemanticStep<H, R, S>,
)
    requires
        call_ensures(AwaitResolution::<R>::answer::<H, S>, (ask, resolution), step),
    ensures
        ({
            let terminal = resolution matches Err(BaselineCall::Failed(BaselineError::Terminal(_)));
            let withdrawn = resolution matches Err(BaselineCall::Withdrawn);
            let ready = (resolution matches Ok(Some(_))) && ask.engine.model is Some
                && ask.engine.dim is Some;
            let missing = !terminal && !withdrawn && !ready;
            &&& step is Embed <==> ready || missing && ask.scope.mode is SqliteLocal
            &&& step matches SemanticStep::Embed(next) ==> {
                &&& next.scope == ask.scope
                &&& next.roots == ask.engine.roots
                &&& next.resolved is Some <==> ready
                &&& next.resolved matches Some(found) ==> Some(found.snapshot) == resolution->Ok_0
                    && Some(found.model_id) == ask.engine.model && Some(found.dim) == ask.engine.dim
            }
            &&& terminal ==> (step matches SemanticStep::Done(end) && ends_with(
                end,
                resolution->Err_0->Failed_0->Terminal_0,
            ))
            &&& withdrawn ==> (step matches SemanticStep::Done(end) && ends_cancelled(end))
            &&& missing && ask.scope.mode is PostgresRemoteOverlay ==> (step
                matches SemanticStep::Done(end) && ends_unavailable(
                end,
                UnavailableView::BaselineNotReady,
            ))
        }),
{
}

/// Only a query that was embedded is searched for, with all that was found out before. An embedder
/// that fails takes the modality away and says why; another failure is an error of the server.
pub proof fn only_an_embedded_query_is_searched_for<H, R, S>(
    ask: AwaitEmbedding<R, S>,
    embedded: EmbedAnswer,
    step: SemanticStep<H, R, S>,
)
    requires
        call_ensures(AwaitEmbedding::<R, S>::answer::<H>, (ask, embedded), step),
    ensures
        step is Reacquire <==> embedded is Embedded,
        step matches SemanticStep::Reacquire(next) ==> next.scope == ask.scope && next.roots
            == ask.roots && next.resolved == ask.resolved,
        embedded matches EmbedAnswer::EmbedderFailed(detail) ==> (step matches SemanticStep::Done(
            end,
        ) && ends_unavailable(end, UnavailableView::EmbedderUnavailable(detail@))),
        embedded matches EmbedAnswer::Failed(error) ==> (step matches SemanticStep::Done(end)
            && ends_broken(end, "search error: "@ + error@)),
        embedded is Withdrawn ==> (step matches SemanticStep::Done(end) && ends_cancelled(end)),
{
}

/// An engine that is had again, and still searches by meaning, is searched in the snapshot that was
/// resolved for it, and locally where there is none and the workspace has an index of its own.
pub proof fn the_engine_is_searched_where_the_query_was_embedded_for<H, R, S>(
    ask: AwaitReacquired<R, S>,
    engine: Result<Option<bool>, AcquireFailure>,
    step: SemanticStep<H, R, S>,
)
    requires
        call_ensures(AwaitReacquired::<R, S>::answer::<H>, (ask, engine), step),
    ensures
        step is SearchDirect <==> (engine matches Ok(Some(true))) && ask.resolved is Some,
        step matches SemanticStep::SearchDirect(next) ==> next.scope == ask.scope && next.roots
            == ask.roots && Some(next.resolved) == ask.resolved,
        step is SearchLocal <==> (engine matches Ok(Some(true))) && ask.resolved is None
            && ask.scope.mode is SqliteLocal,
        step matches SemanticStep::SearchLocal(next) ==> next.roots == ask.roots,
        (engine matches Ok(Some(true))) && ask.resolved is None && !(ask.scope.mode is SqliteLocal)
            ==> (step matches SemanticStep::Done(end) && ends_unavailable(
            end,
            UnavailableView::BaselineRequired,
        )),
        engine matches Ok(Some(false)) ==> (step matches SemanticStep::Done(end)
            && ends_unavailable(end, UnavailableView::NotConfigured)),
        engine matches Ok(None) ==> (step matches SemanticStep::Done(end) && ends_pending(
            end,
            "Search index is being built, please try again in a moment."@,
        )),
        engine matches Err(AcquireFailure::TimedOut) ==> (step matches SemanticStep::Done(end)
            && ends_pending(
            end,
            "Semantic search is busy (a long operation is holding the index). Lexical search is available in the meantime."@,
        )),
        engine matches Err(AcquireFailure::Cancelled) ==> (step matches SemanticStep::Done(end)
            && ends_cancelled(end)),
        engine matches Err(AcquireFailure::Poisoned) ==> (step matches SemanticStep::Done(end)
            && ends_broken(
            end,
            "search engine lock is poisoned (a prior operation panicked); restart the MCP server"@,
        )),
{
}

/// What the baseline found is given under the roots of the engine. A baseline that cannot be asked
/// is replaced by the local index exactly where the workspace has one.
pub proof fn a_search_of_the_snapshot_gives_its_hits<H, R, S>(
    ask: AwaitSemanticDirect<R, S>,
    direct: DirectResult<H>,
    step: SemanticStep<H, R, S>,
)
    requires
        call_ensures(AwaitSemanticDirect::<R, S>::answer::<H>, (ask, direct), step),
    ensures
        step is SearchLocal <==> direct is Unavailable && ask.scope.mode is SqliteLocal,
        step matches SemanticStep::SearchLocal(next) ==> next.roots == ask.roots,
        !(step is SearchLocal) ==> step is Done,
        direct matches DirectResult::Found(hits) ==> ends_ready(step->Done_0, hits@, ask.roots),
        direct matches DirectResult::Terminal(error) ==> ends_with(step->Done_0, error),
        direct is Cancelled ==> ends_cancelled(step->Done_0),
        direct is Unavailable && ask.scope.mode is PostgresRemoteOverlay ==> ends_unavailable(
            step->Done_0,
            UnavailableView::BaselineNotReady,
        ),
{
}

/// What the local index found is given under the roots of the engine, and its failure is an error
/// of the server that says why.
pub proof fn a_local_search_by_meaning_gives_its_hits<H, R, S>(
    ask: AwaitSemanticLocal<R>,
    searched: Result<Vec<H>, String>,
    step: SemanticStep<H, R, S>,
)
    requires
        call_ensures(AwaitSemanticLocal::<R>::answer::<H, S>, (ask, searched), step),
    ensures
        step is Done,
        searched matches Ok(hits) ==> ends_ready(step->Done_0, hits@, ask.roots),
        searched matches Err(error) ==> ends_broken(step->Done_0, "search error: "@ + error@),
{
}

} // verus!
