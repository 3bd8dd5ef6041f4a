//! Searching the documentation of the platform.
//!
//! Both searches ask their host one question at a time.

use crate::acquire::{engine_lock_poisoned_error, poisoned_text, AcquireFailure};
use crate::error::{
    breaks, internal_error, invalid_params, plain_error, refuses, same_error, ErrorView, McpError,
    INTERNAL_ERROR, INVALID_PARAMS,
};
use crate::refill::{BaselineCall, BaselineError};
use crate::search_types::{search_error, search_error_text, SearchFailure};
use vstd::prelude::*;

verus! {

/// What a search of the documentation answers with.
#[derive(Debug, Clone, PartialEq, Eq)]
pub enum DocsAnswer<L, H> {
    /// The index is not there yet.
    NotReady,
    NoHits,
    /// Hits of the baseline.
    Baseline(Vec<L>),
    /// Hits of the local index or of the documents of the baseline.
    Documents(Vec<H>),
}

/// What a search of the documentation ends with, with its texts as sequences of characters.
pub enum DocsView<L, H> {
    Answer(DocsAnswer<L, H>),
    Failed(ErrorView),
    Cancelled,
}

/// What a search of the documentation ends with.
pub open spec fn docs_view<L, H>(result: Result<DocsAnswer<L, H>, SearchFailure>) -> DocsView<
    L,
    H,
> {
    match result {
        Ok(answer) => DocsView::Answer(answer),
        Err(SearchFailure::Error(error)) => DocsView::Failed(error@),
        Err(SearchFailure::Cancelled) => DocsView::Cancelled,
    }
}

/// A failure, as the search ends with it.
pub open spec fn failure_view<L, H>(failure: SearchFailure) -> DocsView<L, H> {
    match failure {
        SearchFailure::Error(error) => DocsView::Failed(error@),
        SearchFailure::Cancelled => DocsView::Cancelled,
    }
}

/// A call of the baseline, unless the request was cancelled while it waited.
pub fn unless_withdrawn<T, E>(call: Result<T, BaselineCall<E>>) -> (result: Result<
    Result<T, E>,
    SearchFailure,
>)
    ensures
        result == match call {
            Ok(value) => Ok::<Result<T, E>, SearchFailure>(Ok(value)),
            Err(BaselineCall::Failed(error)) => Ok(Err(error)),
            Err(BaselineCall::Withdrawn) => Err(SearchFailure::Cancelled),
        },
{
    match call {
        Ok(value) => Ok(Ok(value)),
        Err(BaselineCall::Failed(error)) => Ok(Err(error)),
        Err(BaselineCall::Withdrawn) => Err(SearchFailure::Cancelled),
    }
}

/// What the wait for the engine amounts to: the engine, or the end of the search.
pub fn engine_guard<G, L, H>(acquired: Result<G, AcquireFailure>) -> (guard: Result<
    G,
    Result<DocsAnswer<L, H>, SearchFailure>,
>)
    ensures
        match acquired {
            Ok(held) => guard == Ok::<G, Result<DocsAnswer<L, H>, SearchFailure>>(held),
            Err(failure) => guard is Err && docs_view(guard->Err_0) == waited_in_vain::<L, H>(
                failure,
            ),
        },
{
    match acquired {
        Ok(held) => Ok(held),
        Err(AcquireFailure::Poisoned) => Err(
            Err(SearchFailure::Error(engine_lock_poisoned_error())),
        ),
        Err(AcquireFailure::Cancelled) => Err(Err(SearchFailure::Cancelled)),
        Err(AcquireFailure::TimedOut) => Err(Ok(DocsAnswer::NotReady)),
    }
}

/// The end of a search that did not get the engine.
pub open spec fn waited_in_vain<L, H>(failure: AcquireFailure) -> DocsView<L, H> {
    match failure {
        AcquireFailure::Poisoned => DocsView::Failed(plain_error(INTERNAL_ERROR, poisoned_text())),
        AcquireFailure::Cancelled => DocsView::Cancelled,
        AcquireFailure::TimedOut => DocsView::Answer(DocsAnswer::NotReady),
    }
}

/// The text of a server that cannot search by meaning.
pub open spec fn not_available_text() -> Seq<char> {
    "Semantic search not available. Set EMBEDDING_URL and EMBEDDING_MODEL environment variables and restart. Use find_docs for text search instead."@
}

/// The error of a server that cannot search by meaning.
pub fn semantic_not_available() -> (error: McpError)
    ensures
        error.says(INVALID_PARAMS, not_available_text()),
{
    invalid_params(
        "Semantic search not available. Set EMBEDDING_URL and EMBEDDING_MODEL environment variables and restart. Use find_docs for text search instead.".to_owned(),
    )
}

/// The answer that a list of hits of the baseline amounts to.
pub open spec fn baseline_answer<L, H>(hits: Vec<L>) -> DocsAnswer<L, H> {
    if hits@.len() == 0 {
        DocsAnswer::NoHits
    } else {
        DocsAnswer::Baseline(hits)
    }
}

/// The answer that a list of documents amounts to.
pub open spec fn documents_answer<L, H>(hits: Vec<H>) -> DocsAnswer<L, H> {
    if hits@.len() == 0 {
        DocsAnswer::NoHits
    } else {
        DocsAnswer::Documents(hits)
    }
}

fn baseline_result<L, H>(hits: Vec<L>) -> (answer: DocsAnswer<L, H>)
    ensures
        answer == baseline_answer::<L, H>(hits),
{
    if hits.len() == 0 {
        DocsAnswer::NoHits
    } else {
        DocsAnswer::Baseline(hits)
    }
}

fn documents_result<L, H>(hits: Vec<H>) -> (answer: DocsAnswer<L, H>)
    ensures
        answer == documents_answer::<L, H>(hits),
{
    if hits.len() == 0 {
        DocsAnswer::NoHits
    } else {
        DocsAnswer::Documents(hits)
    }
}

/// The end that a search of the local index amounts to.
pub open spec fn local_view<L, H>(searched: Result<Vec<H>, String>) -> DocsView<L, H> {
    match searched {
        Ok(hits) => DocsView::Answer(documents_answer(hits)),
        Err(error) => DocsView::Failed(plain_error(INTERNAL_ERROR, search_error_text(error@))),
    }
}

fn local_result<L, H>(searched: Result<Vec<H>, String>) -> (result: Result<
    DocsAnswer<L, H>,
    SearchFailure,
>)
    ensures
        docs_view(result) == local_view::<L, H>(searched),
{
    match searched {
        Ok(hits) => Ok(documents_result(hits)),
        Err(error) => Err(search_error(error.as_str())),
    }
}

/// The next step of a search by words.
#[derive(Debug, PartialEq, Eq)]
pub enum FindStep<L, H, S> {
    /// Check that the baseline runs.
    CheckRuntime(AwaitFindGate),
    /// Wait for the lock of the engine.
    Acquire(AwaitFindEngine),
    /// Resolve the snapshot of the baseline.
    ResolveSnapshot(AwaitFindSnapshot),
    /// Search the snapshot by words.
    SearchBaseline(AwaitFindBaseline<S>),
    /// Resolve the documents of the baseline.
    ResolveView(AwaitFindView),
    /// Search the documents of the baseline by words.
    SearchView(AwaitFindDocuments),
    /// Search the local index by words.
    SearchLocal(AwaitFindLocal),
    Done(Result<DocsAnswer<L, H>, SearchFailure>),
}

/// The next step, with the texts of an end as sequences of characters.
pub enum FindView<L, H, S> {
    CheckRuntime(AwaitFindGate),
    Acquire(AwaitFindEngine),
    ResolveSnapshot(AwaitFindSnapshot),
    SearchBaseline(AwaitFindBaseline<S>),
    ResolveView(AwaitFindView),
    SearchView(AwaitFindDocuments),
    SearchLocal(AwaitFindLocal),
    Done(DocsView<L, H>),
}

impl<L, H, S> View for FindStep<L, H, S> {
    type V = FindView<L, H, S>;

    open spec fn view(&self) -> FindView<L, H, S> {
        match *self {
            FindStep::CheckRuntime(ask) => FindView::CheckRuntime(ask),
            FindStep::Acquire(ask) => FindView::Acquire(ask),
            FindStep::ResolveSnapshot(ask) => FindView::ResolveSnapshot(ask),
            FindStep::SearchBaseline(ask) => FindView::SearchBaseline(ask),
            FindStep::ResolveView(ask) => FindView::ResolveView(ask),
            FindStep::SearchView(ask) => FindView::SearchView(ask),
            FindStep::SearchLocal(ask) => FindView::SearchLocal(ask),
            FindStep::Done(result) => FindView::Done(docs_view(result)),
        }
    }
}

#[derive(Debug, Clone, Copy, PartialEq, Eq, Structural)]
pub struct AwaitFindGate {
    pub external: bool,
}

#[derive(Debug, Clone, Copy, PartialEq, Eq, Structural)]
pub struct AwaitFindEngine {
    pub external: bool,
}

#[derive(Debug, Clone, Copy, PartialEq, Eq, Structural)]
pub struct AwaitFindSnapshot {
    pub engine: bool,
}

#[derive(Debug, Clone, PartialEq, Eq)]
pub struct AwaitFindBaseline<S> {
    pub engine: bool,
    pub snapshot: S,
}

#[derive(Debug, Clone, Copy, PartialEq, Eq, Structural)]
pub struct AwaitFindView {
    pub engine: bool,
}

#[derive(Debug, Clone, Copy, PartialEq, Eq, Structural)]
pub struct AwaitFindDocuments {}

#[derive(Debug, Clone, Copy, PartialEq, Eq, Structural)]
pub struct AwaitFindLocal {}

/// Starts a search by words; `external` says whether a baseline is connected.
pub fn find_docs<L, H, S>(external: bool) -> (step: FindStep<L, H, S>)
    ensures
        step@ == FindView::<L, H, S>::CheckRuntime(AwaitFindGate { external }),
{
    FindStep::CheckRuntime(AwaitFindGate { external })
}

/// The step of a search that has nothing from the baseline.
pub open spec fn find_locally<L, H, S>(engine: bool) -> FindView<L, H, S> {
    if engine {
        FindView::SearchLocal(AwaitFindLocal {  })
    } else {
        FindView::Done(DocsView::Answer(DocsAnswer::NotReady))
    }
}

fn find_locally_step<L, H, S>(engine: bool) -> (step: FindStep<L, H, S>)
    ensures
        step@ == find_locally::<L, H, S>(engine),
{
    if engine {
        FindStep::SearchLocal(AwaitFindLocal {  })
    } else {
        FindStep::Done(Ok(DocsAnswer::NotReady))
    }
}

impl AwaitFindGate {
    pub open spec fn next<L, H, S>(self, gate: Result<(), McpError>) -> FindView<L, H, S> {
        match gate {
            Ok(_) => FindView::Acquire(AwaitFindEngine { external: self.external }),
            Err(error) => FindView::Done(DocsView::Failed(error@)),
        }
    }

    pub fn answer<L, H, S>(self, gate: Result<(), McpError>) -> (step: FindStep<L, H, S>)
        ensures
            step@ == self.next::<L, H, S>(gate),
    {
        match gate {
            Ok(_) => FindStep::Acquire(AwaitFindEngine { external: self.external }),
            Err(error) => FindStep::Done(Err(SearchFailure::Error(error))),
        }
    }
}

impl AwaitFindEngine {
    pub open spec fn next<L, H, S>(self, engine: Result<bool, AcquireFailure>) -> FindView<L, H, S> {
        match engine {
            Err(failure) => FindView::Done(waited_in_vain(failure)),
            Ok(engine) => if self.external {
                FindView::ResolveSnapshot(AwaitFindSnapshot { engine })
            } else {
                find_locally(engine)
            },
        }
    }

    /// The lock was had, with or without an engine behind it, or not.
    pub fn answer<L, H, S>(self, engine: Result<bool, AcquireFailure>) -> (step: FindStep<L, H, S>)
        ensures
            step@ == self.next::<L, H, S>(engine),
    {
        match engine_guard::<bool, L, H>(engine) {
            Err(end) => FindStep::Done(end),
            Ok(engine) => if self.external {
                FindStep::ResolveSnapshot(AwaitFindSnapshot { engine })
            } else {
                find_locally_step(engine)
            },
        }
    }
}

impl AwaitFindSnapshot {
    pub open spec fn next<L, H, S>(self, resolution: Result<Option<S>, SearchFailure>) -> FindView<
        L,
        H,
        S,
    > {
        match resolution {
            Err(failure) => FindView::Done(failure_view(failure)),
            Ok(Some(snapshot)) => FindView::SearchBaseline(
                AwaitFindBaseline { engine: self.engine, snapshot },
            ),
            Ok(None) => find_locally(self.engine),
        }
    }

    pub fn answer<L, H, S>(self, resolution: Result<Option<S>, SearchFailure>) -> (step: FindStep<
        L,
        H,
        S,
    >)
        ensures
            step@ == self.next::<L, H, S>(resolution),
    {
        match resolution {
            Err(failure) => FindStep::Done(Err(failure)),
            Ok(Some(snapshot)) => FindStep::SearchBaseline(
                AwaitFindBaseline { engine: self.engine, snapshot },
            ),
            Ok(None) => find_locally_step(self.engine),
        }
    }
}

impl<S> AwaitFindBaseline<S> {
    pub open spec fn next<L, H>(
        self,
        searched: Result<Vec<L>, BaselineCall<BaselineError>>,
    ) -> FindView<L, H, S> {
        match searched {
            Ok(hits) => FindView::Done(DocsView::Answer(baseline_answer(hits))),
            Err(BaselineCall::Withdrawn) => FindView::Done(DocsView::Cancelled),
            Err(BaselineCall::Failed(BaselineError::Terminal(error))) => FindView::Done(
                DocsView::Failed(error@),
            ),
            Err(BaselineCall::Failed(BaselineError::Transient)) => FindView::ResolveView(
                AwaitFindView { engine: self.engine },
            ),
        }
    }

    /// A baseline that answers is believed, also where it finds nothing. One that cannot be
    /// asked right now is replaced by its documents.
    pub fn answer<L, H>(
        self,
        searched: Result<Vec<L>, BaselineCall<BaselineError>>,
    ) -> (step: FindStep<L, H, S>)
        ensures
            step@ == self.next::<L, H>(searched),
    {
        match unless_withdrawn(searched) {
            Err(failure) => FindStep::Done(Err(failure)),
            Ok(Ok(hits)) => FindStep::Done(Ok(baseline_result(hits))),
            Ok(Err(BaselineError::Terminal(error))) => FindStep::Done(
                Err(SearchFailure::Error(error)),
            ),
            Ok(Err(BaselineError::Transient)) => FindStep::ResolveView(
                AwaitFindView { engine: self.engine },
            ),
        }
    }
}

impl AwaitFindView {
    pub open spec fn next<L, H, S>(self, resolution: Result<bool, SearchFailure>) -> FindView<
        L,
        H,
        S,
    > {
        match resolution {
            Err(failure) => FindView::Done(failure_view(failure)),
            Ok(true) => FindView::SearchView(AwaitFindDocuments {  }),
            Ok(false) => find_locally(self.engine),
        }
    }

    /// The documents of the baseline are there, or not.
    pub fn answer<L, H, S>(self, resolution: Result<bool, SearchFailure>) -> (step: FindStep<
        L,
        H,
        S,
    >)
        ensures
            step@ == self.next::<L, H, S>(resolution),
    {
        match resolution {
            Err(failure) => FindStep::Done(Err(failure)),
            Ok(true) => FindStep::SearchView(AwaitFindDocuments {  }),
            Ok(false) => find_locally_step(self.engine),
        }
    }
}

impl AwaitFindDocuments {
    pub open spec fn next<L, H, S>(self, hits: Vec<H>) -> FindView<L, H, S> {
        FindView::Done(DocsView::Answer(documents_answer(hits)))
    }

    pub fn answer<L, H, S>(self, hits: Vec<H>) -> (step: FindStep<L, H, S>)
        ensures
            step@ == self.next::<L, H, S>(hits),
    {
        FindStep::Done(Ok(documents_result(hits)))
    }
}

impl AwaitFindLocal {
    pub open spec fn next<L, H, S>(self, searched: Result<Vec<H>, String>) -> FindView<L, H, S> {
        FindView::Done(local_view(searched))
    }

    pub fn answer<L, H, S>(self, searched: Result<Vec<H>, String>) -> (step: FindStep<L, H, S>)
        ensures
            step@ == self.next::<L, H, S>(searched),
    {
        FindStep::Done(local_result(searched))
    }
}

/// What a search by meaning reads of the engine while it holds its lock.
#[derive(Debug, Clone, PartialEq, Eq)]
pub struct DocsEngine {
    pub has_semantic: bool,
    pub has_embedder: bool,
    pub model: Option<String>,
    pub dim: Option<u64>,
}

/// What became of the query in the embedder.
#[derive(Debug, Clone, PartialEq, Eq)]
pub enum DocsEmbedding {
    /// The host has the vector.
    Embedded,
    Failed(String),
    /// The request was cancelled while it waited.
    Withdrawn,
}

/// The next step of a search by meaning.
#[derive(Debug, PartialEq, Eq)]
pub enum SearchStep<L, H, S> {
    /// Check that the baseline runs.
    CheckRuntime(AwaitSearchGate),
    /// Wait for the lock of the engine.
    Acquire(AwaitSearchEngine),
    /// Resolve the snapshot of the baseline; the lock is free.
    ResolveSnapshot(AwaitSearchSnapshot),
    /// Embed the query; the lock is free.
    Embed(AwaitSearchEmbedding<S>),
    /// Wait for the lock of the engine again.
    Reacquire(AwaitSearchReacquired<S>),
    /// Search the snapshot by meaning.
    SearchBaseline(AwaitSearchBaseline<S>),
    /// Search the local index by meaning.
    SearchLocal(AwaitSearchLocal),
    Done(Result<DocsAnswer<L, H>, SearchFailure>),
}

/// The next step, with the texts of an end as sequences of characters.
pub enum SearchView<L, H, S> {
    CheckRuntime(AwaitSearchGate),
    Acquire(AwaitSearchEngine),
    ResolveSnapshot(AwaitSearchSnapshot),
    Embed(AwaitSearchEmbedding<S>),
    Reacquire(AwaitSearchReacquired<S>),
    SearchBaseline(AwaitSearchBaseline<S>),
    SearchLocal(AwaitSearchLocal),
    Done(DocsView<L, H>),
}

impl<L, H, S> View for SearchStep<L, H, S> {
    type V = SearchView<L, H, S>;

    open spec fn view(&self) -> SearchView<L, H, S> {
        match *self {
            SearchStep::CheckRuntime(ask) => SearchView::CheckRuntime(ask),
            SearchStep::Acquire(ask) => SearchView::Acquire(ask),
            SearchStep::ResolveSnapshot(ask) => SearchView::ResolveSnapshot(ask),
            SearchStep::Embed(ask) => SearchView::Embed(ask),
            SearchStep::Reacquire(ask) => SearchView::Reacquire(ask),
            SearchStep::SearchBaseline(ask) => SearchView::SearchBaseline(ask),
            SearchStep::SearchLocal(ask) => SearchView::SearchLocal(ask),
            SearchStep::Done(result) => SearchView::Done(docs_view(result)),
        }
    }
}

#[derive(Debug, Clone, Copy, PartialEq, Eq, Structural)]
pub struct AwaitSearchGate {
    pub external: bool,
}

#[derive(Debug, Clone, Copy, PartialEq, Eq, Structural)]
pub struct AwaitSearchEngine {
    pub external: bool,
}

#[derive(Debug, Clone, PartialEq, Eq)]
pub struct AwaitSearchSnapshot {
    pub model: Option<String>,
    pub dim: Option<u64>,
}

#[derive(Debug, Clone, PartialEq, Eq)]
pub struct AwaitSearchEmbedding<S> {
    pub model: Option<String>,
    pub dim: Option<u64>,
    pub snapshot: Option<S>,
}

#[derive(Debug, Clone, PartialEq, Eq)]
pub struct AwaitSearchReacquired<S> {
    pub model: Option<String>,
    pub dim: Option<u64>,
    pub snapshot: Option<S>,
}

#[derive(Debug, Clone, PartialEq, Eq)]
pub struct AwaitSearchBaseline<S> {
    pub model: String,
    pub dim: u64,
    pub snapshot: S,
}

#[derive(Debug, Clone, Copy, PartialEq, Eq, Structural)]
pub struct AwaitSearchLocal {}

/// Starts a search by meaning; `external` says whether a baseline is connected.
pub fn search_docs<L, H, S>(external: bool) -> (step: SearchStep<L, H, S>)
    ensures
        step@ == SearchView::<L, H, S>::CheckRuntime(AwaitSearchGate { external }),
{
    SearchStep::CheckRuntime(AwaitSearchGate { external })
}

/// The end of a search on a server that cannot search by meaning.
pub open spec fn no_semantic<L, H, S>() -> SearchView<L, H, S> {
    SearchView::Done(DocsView::Failed(plain_error(INVALID_PARAMS, not_available_text())))
}

fn no_semantic_step<L, H, S>() -> (step: SearchStep<L, H, S>)
    ensures
        step@ == no_semantic::<L, H, S>(),
{
    SearchStep::Done(Err(SearchFailure::Error(semantic_not_available())))
}

impl AwaitSearchGate {
    pub open spec fn next<L, H, S>(self, gate: Result<(), McpError>) -> SearchView<L, H, S> {
        match gate {
            Ok(_) => SearchView::Acquire(AwaitSearchEngine { external: self.external }),
            Err(error) => SearchView::Done(DocsView::Failed(error@)),
        }
    }

    pub fn answer<L, H, S>(self, gate: Result<(), McpError>) -> (step: SearchStep<L, H, S>)
        ensures
            step@ == self.next::<L, H, S>(gate),
    {
        match gate {
            Ok(_) => SearchStep::Acquire(AwaitSearchEngine { external: self.external }),
            Err(error) => SearchStep::Done(Err(SearchFailure::Error(error))),
        }
    }
}

impl AwaitSearchEngine {
    pub open spec fn next<L, H, S>(
        self,
        engine: Result<Option<DocsEngine>, AcquireFailure>,
    ) -> SearchView<L, H, S> {
        match engine {
            Err(failure) => SearchView::Done(waited_in_vain(failure)),
            Ok(None) => SearchView::Done(DocsView::Answer(DocsAnswer::NotReady)),
            Ok(Some(engine)) => if !engine.has_semantic || !engine.has_embedder {
                no_semantic()
            } else if self.external {
                SearchView::ResolveSnapshot(
                    AwaitSearchSnapshot { model: engine.model, dim: engine.dim },
                )
            } else {
                SearchView::Embed(
                    AwaitSearchEmbedding { model: engine.model, dim: engine.dim, snapshot: None },
                )
            },
        }
    }

    /// The lock was had, with or without an engine behind it, or not.
    pub fn answer<L, H, S>(
        self,
        engine: Result<Option<DocsEngine>, AcquireFailure>,
    ) -> (step: SearchStep<L, H, S>)
        ensures
            step@ == self.next::<L, H, S>(engine),
    {
        match engine_guard::<Option<DocsEngine>, L, H>(engine) {
            Err(end) => SearchStep::Done(end),
            Ok(None) => SearchStep::Done(Ok(DocsAnswer::NotReady)),
            Ok(Some(engine)) => if !engine.has_semantic || !engine.has_embedder {
                no_semantic_step()
            } else if self.external {
                SearchStep::ResolveSnapshot(
                    AwaitSearchSnapshot { model: engine.model, dim: engine.dim },
                )
            } else {
                SearchStep::Embed(
                    AwaitSearchEmbedding { model: engine.model, dim: engine.dim, snapshot: None },
                )
            },
        }
    }
}

impl AwaitSearchSnapshot {
    pub open spec fn next<L, H, S>(
        self,
        resolution: Result<Option<S>, SearchFailure>,
    ) -> SearchView<L, H, S> {
        match resolution {
            Err(failure) => SearchView::Done(failure_view(failure)),
            Ok(snapshot) => SearchView::Embed(
                AwaitSearchEmbedding { model: self.model, dim: self.dim, snapshot },
            ),
        }
    }

    pub fn answer<L, H, S>(
        self,
        resolution: Result<Option<S>, SearchFailure>,
    ) -> (step: SearchStep<L, H, S>)
        ensures
            step@ == self.next::<L, H, S>(resolution),
    {
        match resolution {
            Err(failure) => SearchStep::Done(Err(failure)),
            Ok(snapshot) => SearchStep::Embed(
                AwaitSearchEmbedding { model: self.model, dim: self.dim, snapshot },
            ),
        }
    }
}

impl<S> AwaitSearchEmbedding<S> {
    pub open spec fn next<L, H>(self, embedded: DocsEmbedding) -> SearchView<L, H, S> {
        match embedded {
            DocsEmbedding::Embedded => SearchView::Reacquire(
                AwaitSearchReacquired { model: self.model, dim: self.dim, snapshot: self.snapshot },
            ),
            DocsEmbedding::Failed(error) => SearchView::Done(
                DocsView::Failed(plain_error(INTERNAL_ERROR, search_error_text(error@))),
            ),
            DocsEmbedding::Withdrawn => SearchView::Done(DocsView::Cancelled),
        }
    }

    pub fn answer<L, H>(self, embedded: DocsEmbedding) -> (step: SearchStep<L, H, S>)
        ensures
            step@ == self.next::<L, H>(embedded),
    {
        match embedded {
            DocsEmbedding::Embedded => SearchStep::Reacquire(
                AwaitSearchReacquired { model: self.model, dim: self.dim, snapshot: self.snapshot },
            ),
            DocsEmbedding::Failed(error) => SearchStep::Done(Err(search_error(error.as_str()))),
            DocsEmbedding::Withdrawn => SearchStep::Done(Err(SearchFailure::Cancelled)),
        }
    }
}

impl<S> AwaitSearchReacquired<S> {
    pub open spec fn next<L, H>(self, engine: Result<Option<bool>, AcquireFailure>) -> SearchView<
        L,
        H,
        S,
    > {
        match engine {
            Err(failure) => SearchView::Done(waited_in_vain(failure)),
            Ok(None) => SearchView::Done(DocsView::Answer(DocsAnswer::NotReady)),
            Ok(Some(false)) => no_semantic(),
            Ok(Some(true)) => match self.snapshot {
                None => SearchView::SearchLocal(AwaitSearchLocal {  }),
                Some(snapshot) => match (self.model, self.dim) {
                    (None, _) => SearchView::Done(
                        DocsView::Failed(
                            plain_error(
                                INTERNAL_ERROR,
                                search_error_text("semantic model id is unavailable"@),
                            ),
                        ),
                    ),
                    (Some(_), None) => SearchView::Done(
                        DocsView::Failed(
                            plain_error(
                                INTERNAL_ERROR,
                                search_error_text("embedding dimension is unavailable"@),
                            ),
                        ),
                    ),
                    (Some(model), Some(dim)) => SearchView::SearchBaseline(
                        AwaitSearchBaseline { model, dim, snapshot },
                    ),
                },
            },
        }
    }

    /// The lock was had again; the answer says whether there is an engine, and whether it still
    /// searches by meaning.
    pub fn answer<L, H>(self, engine: Result<Option<bool>, AcquireFailure>) -> (step: SearchStep<
        L,
        H,
        S,
    >)
        ensures
            step@ == self.next::<L, H>(engine),
    {
        match engine_guard::<Option<bool>, L, H>(engine) {
            Err(end) => SearchStep::Done(end),
            Ok(None) => SearchStep::Done(Ok(DocsAnswer::NotReady)),
            Ok(Some(false)) => no_semantic_step(),
            Ok(Some(true)) => match self.snapshot {
                None => SearchStep::SearchLocal(AwaitSearchLocal {  }),
                Some(snapshot) => match (self.model, self.dim) {
                    (None, _) => SearchStep::Done(
                        Err(search_error("semantic model id is unavailable")),
                    ),
                    (Some(_), None) => SearchStep::Done(
                        Err(search_error("embedding dimension is unavailable")),
                    ),
                    (Some(model), Some(dim)) => SearchStep::SearchBaseline(
                        AwaitSearchBaseline { model, dim, snapshot },
                    ),
                },
            },
        }
    }
}

impl<S> AwaitSearchBaseline<S> {
    pub open spec fn next<L, H>(
        self,
        searched: Result<Vec<L>, BaselineCall<BaselineError>>,
    ) -> SearchView<L, H, S> {
        match searched {
            Ok(hits) => SearchView::Done(DocsView::Answer(baseline_answer(hits))),
            Err(BaselineCall::Withdrawn) => SearchView::Done(DocsView::Cancelled),
            Err(BaselineCall::Failed(BaselineError::Terminal(error))) => SearchView::Done(
                DocsView::Failed(error@),
            ),
            Err(BaselineCall::Failed(BaselineError::Transient)) => SearchView::SearchLocal(
                AwaitSearchLocal {  },
            ),
        }
    }

    /// A baseline that answers is believed, also where it finds nothing. One that cannot be
    /// asked right now is replaced by the local index.
    pub fn answer<L, H>(
        self,
        searched: Result<Vec<L>, BaselineCall<BaselineError>>,
    ) -> (step: SearchStep<L, H, S>)
        ensures
            step@ == self.next::<L, H>(searched),
    {
        match unless_withdrawn(searched) {
            Err(failure) => SearchStep::Done(Err(failure)),
            Ok(Ok(hits)) => SearchStep::Done(Ok(baseline_result(hits))),
            Ok(Err(BaselineError::Terminal(error))) => SearchStep::Done(
                Err(SearchFailure::Error(error)),
            ),
            Ok(Err(BaselineError::Transient)) => SearchStep::SearchLocal(AwaitSearchLocal {  }),
        }
    }
}

impl AwaitSearchLocal {
    pub open spec fn next<L, H, S>(self, searched: Result<Vec<H>, String>) -> SearchView<L, H, S> {
        SearchView::Done(local_view(searched))
    }

    pub fn answer<L, H, S>(self, searched: Result<Vec<H>, String>) -> (step: SearchStep<L, H, S>)
        ensures
            step@ == self.next::<L, H, S>(searched),
    {
        SearchStep::Done(local_result(searched))
    }
}

/// What a host answers to every question that a search by words may ask.
pub struct FindAnswers<L, H, S> {
    pub gate: Result<(), McpError>,
    pub engine: Result<bool, AcquireFailure>,
    pub snapshot: Result<Option<S>, SearchFailure>,
    pub baseline: Result<Vec<L>, BaselineCall<BaselineError>>,
    pub view: Result<bool, SearchFailure>,
    pub documents: Vec<H>,
    pub local: Result<Vec<H>, String>,
}

/// The step after `step`, for a host with these answers.
pub open spec fn find_answered<L, H, S>(
    step: FindView<L, H, S>,
    answers: FindAnswers<L, H, S>,
) -> FindView<L, H, S> {
    match step {
        FindView::CheckRuntime(ask) => ask.next::<L, H, S>(answers.gate),
        FindView::Acquire(ask) => ask.next::<L, H, S>(answers.engine),
        FindView::ResolveSnapshot(ask) => ask.next::<L, H, S>(answers.snapshot),
        FindView::SearchBaseline(ask) => ask.next::<L, H>(answers.baseline),
        FindView::ResolveView(ask) => ask.next::<L, H, S>(answers.view),
        FindView::SearchView(ask) => ask.next::<L, H, S>(answers.documents),
        FindView::SearchLocal(ask) => ask.next::<L, H, S>(answers.local),
        FindView::Done(result) => FindView::Done(result),
    }
}

/// A whole search by words: it asks at most six questions.
pub open spec fn whole_find<L, H, S>(external: bool, answers: FindAnswers<L, H, S>) -> FindView<
    L,
    H,
    S,
> {
    let step0 = FindView::<L, H, S>::CheckRuntime(AwaitFindGate { external });
    let step1 = find_answered(step0, answers);
    let step2 = find_answered(step1, answers);
    let step3 = find_answered(step2, answers);
    let step4 = find_answered(step3, answers);
    let step5 = find_answered(step4, answers);
    find_answered(step5, answers)
}

/// What a host answers to every question that a search by meaning may ask.
pub struct SearchAnswers<L, H, S> {
    pub gate: Result<(), McpError>,
    pub engine: Result<Option<DocsEngine>, AcquireFailure>,
    pub snapshot: Result<Option<S>, SearchFailure>,
    pub embedded: DocsEmbedding,
    pub engine_again: Result<Option<bool>, AcquireFailure>,
    pub baseline: Result<Vec<L>, BaselineCall<BaselineError>>,
    pub local: Result<Vec<H>, String>,
}

/// The step after `step`, for a host with these answers.
pub open spec fn search_answered<L, H, S>(
    step: SearchView<L, H, S>,
    answers: SearchAnswers<L, H, S>,
) -> SearchView<L, H, S> {
    match step {
        SearchView::CheckRuntime(ask) => ask.next::<L, H, S>(answers.gate),
        SearchView::Acquire(ask) => ask.next::<L, H, S>(answers.engine),
        SearchView::ResolveSnapshot(ask) => ask.next::<L, H, S>(answers.snapshot),
        SearchView::Embed(ask) => ask.next::<L, H>(answers.embedded),
        SearchView::Reacquire(ask) => ask.next::<L, H>(answers.engine_again),
        SearchView::SearchBaseline(ask) => ask.next::<L, H>(answers.baseline),
        SearchView::SearchLocal(ask) => ask.next::<L, H, S>(answers.local),
        SearchView::Done(result) => SearchView::Done(result),
    }
}

/// A whole search by meaning: it asks at most seven questions.
pub open spec fn whole_search<L, H, S>(
    external: bool,
    answers: SearchAnswers<L, H, S>,
) -> SearchView<L, H, S> {
    let step0 = SearchView::<L, H, S>::CheckRuntime(AwaitSearchGate { external });
    let step1 = search_answered(step0, answers);
    let step2 = search_answered(step1, answers);
    let step3 = search_answered(step2, answers);
    let step4 = search_answered(step3, answers);
    let step5 = search_answered(step4, answers);
    let step6 = search_answered(step5, answers);
    search_answered(step6, answers)
}

/// Both searches end, and a baseline that does not run ends them before anything else is asked.
pub proof fn documentation_searches_end<L, H, S>(
    external: bool,
    find: FindAnswers<L, H, S>,
    search: SearchAnswers<L, H, S>,
)
    ensures
        whole_find(external, find) is Done,
        whole_search(external, search) is Done,
        find.gate matches Err(error) ==> whole_find(external, find) == FindView::<L, H, S>::Done(
            DocsView::Failed(error@),
        ),
        search.gate matches Err(error) ==> whole_search(external, search) == SearchView::<
            L,
            H,
            S,
        >::Done(DocsView::Failed(error@)),
{
}

/// A search by words that is cancelled while it waits for the baseline does not go on to the
/// documents of the baseline or to the local index: what they hold makes no difference.
pub proof fn a_cancelled_search_does_not_fall_back<L, H, S>(
    answers: FindAnswers<L, H, S>,
    snapshot: S,
)
    requires
        answers.gate is Ok,
        answers.engine is Ok,
        answers.snapshot == Ok::<Option<S>, SearchFailure>(Some(snapshot)),
        answers.baseline == Err::<Vec<L>, BaselineCall<BaselineError>>(BaselineCall::Withdrawn),
    ensures
        whole_find(true, answers) == FindView::<L, H, S>::Done(DocsView::Cancelled),
{
}

/// A search by words waits at this question, and is cancelled while it waits.
pub open spec fn find_cancelled_at<L, H, S>(
    step: FindView<L, H, S>,
    answers: FindAnswers<L, H, S>,
) -> bool {
    match step {
        FindView::Acquire(_) => answers.engine matches Err(AcquireFailure::Cancelled),
        FindView::ResolveSnapshot(_) => answers.snapshot matches Err(SearchFailure::Cancelled),
        FindView::SearchBaseline(_) => answers.baseline matches Err(BaselineCall::Withdrawn),
        FindView::ResolveView(_) => answers.view matches Err(SearchFailure::Cancelled),
        _ => false,
    }
}

/// A search by meaning waits at this question, and is cancelled while it waits.
pub open spec fn search_cancelled_at<L, H, S>(
    step: SearchView<L, H, S>,
    answers: SearchAnswers<L, H, S>,
) -> bool {
    match step {
        SearchView::Acquire(_) => answers.engine matches Err(AcquireFailure::Cancelled),
        SearchView::ResolveSnapshot(_) => answers.snapshot matches Err(SearchFailure::Cancelled),
        SearchView::Embed(_) => answers.embedded is Withdrawn,
        SearchView::Reacquire(_) => answers.engine_again matches Err(AcquireFailure::Cancelled),
        SearchView::SearchBaseline(_) => answers.baseline matches Err(BaselineCall::Withdrawn),
        _ => false,
    }
}

/// Wherever a request is cancelled while it waits, the question it waits at is its last one,
/// and it ends cancelled: it is never told to ask again.
pub proof fn a_cancelled_wait_ends_the_search<L, H, S>(
    find_step: FindView<L, H, S>,
    find: FindAnswers<L, H, S>,
    search_step: SearchView<L, H, S>,
    search: SearchAnswers<L, H, S>,
)
    ensures
        find_cancelled_at(find_step, find) ==> find_answered(find_step, find) == FindView::<
            L,
            H,
            S,
        >::Done(DocsView::Cancelled),
        search_cancelled_at(search_step, search) ==> search_answered(search_step, search)
            == SearchView::<L, H, S>::Done(DocsView::Cancelled),
{
}

/// A baseline whose snapshot cannot be had ends a search by meaning before the query is
/// embedded: what the embedder would answer makes no difference.
pub proof fn a_failed_snapshot_costs_no_embedding<L, H, S>(
    answers: SearchAnswers<L, H, S>,
    other_embedded: DocsEmbedding,
)
    requires
        answers.snapshot is Err,
    ensures
        whole_search(true, answers) == whole_search(
            true,
            SearchAnswers { embedded: other_embedded, ..answers },
        ),
{
}

/// A server that cannot search by meaning says so before it asks the baseline or the embedder.
pub proof fn a_server_without_vectors_asks_no_further<L, H, S>(
    external: bool,
    answers: SearchAnswers<L, H, S>,
    engine: DocsEngine,
)
    requires
        answers.gate is Ok,
        answers.engine == Ok::<Option<DocsEngine>, AcquireFailure>(Some(engine)),
        !engine.has_semantic || !engine.has_embedder,
    ensures
        whole_search(external, answers) == no_semantic::<L, H, S>(),
        whole_search(external, answers) matches SearchView::Done(DocsView::Failed(error))
            && error.code == -32602 && error.reason_code is None && error.message
            == "Semantic search not available. Set EMBEDDING_URL and EMBEDDING_MODEL environment variables and restart. Use find_docs for text search instead."@,
{
}

/// The search ends with this very failure.
pub open spec fn docs_end_with<L, H>(
    end: Result<DocsAnswer<L, H>, SearchFailure>,
    failure: SearchFailure,
) -> bool {
    match failure {
        SearchFailure::Cancelled => end matches Err(SearchFailure::Cancelled),
        SearchFailure::Error(error) => end matches Err(SearchFailure::Error(given)) && same_error(
            given,
            error,
        ),
    }
}

/// The search ends with an error of the server that says this.
pub open spec fn docs_end_broken<L, H>(
    end: Result<DocsAnswer<L, H>, SearchFailure>,
    text: Seq<char>,
) -> bool {
    end matches Err(SearchFailure::Error(error)) && breaks(error, text)
}

/// The search ends with what the wait for the engine came to.
pub open spec fn docs_end_waiting<L, H>(
    end: Result<DocsAnswer<L, H>, SearchFailure>,
    failure: AcquireFailure,
) -> bool {
    &&& failure is Poisoned ==> docs_end_broken(
        end,
        "search engine lock is poisoned (a prior operation panicked); restart the MCP server"@,
    )
    &&& failure is Cancelled ==> (end matches Err(SearchFailure::Cancelled))
    &&& failure is TimedOut ==> (end matches Ok(answer) && answer is NotReady)
}

/// A whole search by words, where nothing fails. What a connected baseline finds is the answer,
/// also where it finds nothing. Where it has no snapshot, the local index answers; where it cannot
/// be asked right now, its documents do, and the local index where they are not there. Without an
/// engine there is no local index, and the search is not ready.
pub proof fn a_search_by_words_is_answered_from_where_it_can_be<L, H, S>(
    external: bool,
    answers: FindAnswers<L, H, S>,
)
    requires
        answers.gate is Ok,
        answers.engine is Ok,
    ensures
        ({
            let end = whole_find(external, answers)->Done_0;
            let asked = external && (answers.snapshot matches Ok(Some(_)));
            let not_now = asked && (answers.baseline matches Err(
                BaselineCall::Failed(BaselineError::Transient),
            ));
            let locally = !external || (answers.snapshot matches Ok(None)) || (not_now && (
            answers.view matches Ok(false)));
            &&& external ==> (answers.snapshot matches Err(SearchFailure::Error(error)) ==> end
                == DocsView::<L, H>::Failed(error@))
            &&& external && (answers.snapshot matches Err(SearchFailure::Cancelled)) ==> end
                is Cancelled
            &&& asked ==> (answers.baseline matches Ok(hits) ==> end == DocsView::<L, H>::Answer(
                if hits@.len() == 0 { DocsAnswer::NoHits } else { DocsAnswer::Baseline(hits) },
            ))
            &&& asked && (answers.baseline matches Err(BaselineCall::Withdrawn)) ==> end
                is Cancelled
            &&& asked ==> (answers.baseline matches Err(
                BaselineCall::Failed(BaselineError::Terminal(error)),
            ) ==> end == DocsView::<L, H>::Failed(error@))
            &&& not_now && (answers.view matches Ok(true)) ==> end == DocsView::<L, H>::Answer(
                if answers.documents@.len() == 0 {
                    DocsAnswer::NoHits
                } else {
                    DocsAnswer::Documents(answers.documents)
                },
            )
            &&& not_now ==> (answers.view matches Err(SearchFailure::Error(error)) ==> end
                == DocsView::<L, H>::Failed(error@))
            &&& not_now && (answers.view matches Err(SearchFailure::Cancelled)) ==> end is Cancelled
            &&& locally && !answers.engine->Ok_0 ==> end == DocsView::<L, H>::Answer(
                DocsAnswer::NotReady,
            )
            &&& locally && answers.engine->Ok_0 ==> {
                &&& answers.local matches Ok(hits) ==> end == DocsView::<L, H>::Answer(
                    if hits@.len() == 0 { DocsAnswer::NoHits } else { DocsAnswer::Documents(hits) },
                )
                &&& answers.local matches Err(error) ==> (end matches DocsView::Failed(given)
                    && given.code == -32603 && given.reason_code is None && given.message == "search error: "@ + error@)
            }
        }),
{
}

/// A whole search by meaning, where nothing fails before it. The snapshot of a connected baseline
/// is searched with the model and the dimension of the engine, and its answer is believed, also
/// where it finds nothing. The local index answers where there is no snapshot or where the baseline
/// cannot be asked right now. A reader that does not know its own vectors is told which of the two
/// is missing.
pub proof fn a_search_of_meaning_is_answered_from_where_it_can_be<L, H, S>(
    external: bool,
    answers: SearchAnswers<L, H, S>,
    engine: DocsEngine,
)
    requires
        answers.gate is Ok,
        answers.engine == Ok::<Option<DocsEngine>, AcquireFailure>(Some(engine)),
        engine.has_semantic,
        engine.has_embedder,
        external ==> answers.snapshot is Ok,
        answers.embedded is Embedded,
        answers.engine_again == Ok::<Option<bool>, AcquireFailure>(Some(true)),
    ensures
        ({
            let end = whole_search(external, answers)->Done_0;
            let asked = external && answers.snapshot->Ok_0 is Some;
            let known = asked && engine.model is Some && engine.dim is Some;
            let locally = !asked || (known && (answers.baseline matches Err(
                BaselineCall::Failed(BaselineError::Transient),
            )));
            &&& asked && engine.model is None ==> (end matches DocsView::Failed(given) && given.code
                == -32603 && given.reason_code is None && given.message == "search error: "@
                + "semantic model id is unavailable"@)
            &&& asked && engine.model is Some && engine.dim is None ==> (end
                matches DocsView::Failed(given) && given.code == -32603 && given.reason_code is None && given.message
                == "search error: "@ + "embedding dimension is unavailable"@)
            &&& known ==> (answers.baseline matches Ok(hits) ==> end == DocsView::<L, H>::Answer(
                if hits@.len() == 0 { DocsAnswer::NoHits } else { DocsAnswer::Baseline(hits) },
            ))
            &&& known && (answers.baseline matches Err(BaselineCall::Withdrawn)) ==> end
                is Cancelled
            &&& known ==> (answers.baseline matches Err(
                BaselineCall::Failed(BaselineError::Terminal(error)),
            ) ==> end == DocsView::<L, H>::Failed(error@))
            &&& locally ==> {
                &&& answers.local matches Ok(hits) ==> end == DocsView::<L, H>::Answer(
                    if hits@.len() == 0 { DocsAnswer::NoHits } else { DocsAnswer::Documents(hits) },
                )
                &&& answers.local matches Err(error) ==> (end matches DocsView::Failed(given)
                    && given.code == -32603 && given.reason_code is None && given.message == "search error: "@ + error@)
            }
        }),
{
}

/// A call of the baseline is handed on as it is, and only a withdrawn one is a failure.
pub proof fn only_a_withdrawn_call_is_a_failure<T, E>(
    call: Result<T, BaselineCall<E>>,
    result: Result<Result<T, E>, SearchFailure>,
)
    requires
        call_ensures(unless_withdrawn::<T, E>, (call,), result),
    ensures
        call matches Ok(value) ==> (result matches Ok(Ok(given)) && given == value),
        call matches Err(BaselineCall::Failed(error)) ==> (result matches Ok(Err(given)) && given
            == error),
        call matches Err(BaselineCall::Withdrawn) ==> (result matches Err(failure) && failure
            is Cancelled),
{
}

/// An engine that was had is handed on. A wait in vain ends the search: with an error where the
/// lock is poisoned, as withdrawn where it was, and as not ready where the time was over.
pub proof fn a_wait_in_vain_ends_the_search<G, L, H>(
    acquired: Result<G, AcquireFailure>,
    guard: Result<G, Result<DocsAnswer<L, H>, SearchFailure>>,
)
    requires
        call_ensures(engine_guard::<G, L, H>, (acquired,), guard),
    ensures
        acquired matches Ok(held) ==> (guard matches Ok(given) && given == held),
        acquired matches Err(failure) ==> (guard matches Err(end) && docs_end_waiting(
            end,
            failure,
        )),
{
}

/// A server that cannot search by meaning refuses to, and says what to set.
pub proof fn a_server_without_vectors_says_what_to_set(error: McpError)
    requires
        call_ensures(semantic_not_available, (), error),
    ensures
        refuses(
            error,
            "Semantic search not available. Set EMBEDDING_URL and EMBEDDING_MODEL environment variables and restart. Use find_docs for text search instead."@,
        ),
{
}

/// A search by words first checks that the baseline runs, then waits for the engine, and remembers
/// whether a baseline is connected.
pub proof fn a_search_by_words_begins_at_its_gate<L, H, S>(
    external: bool,
    first: FindStep<L, H, S>,
    ask: AwaitFindGate,
    gate: Result<(), McpError>,
    step: FindStep<L, H, S>,
)
    requires
        call_ensures(find_docs::<L, H, S>, (external,), first),
        call_ensures(AwaitFindGate::answer::<L, H, S>, (ask, gate), step),
    ensures
        first matches FindStep::CheckRuntime(next) && next.external == external,
        gate is Ok <==> step is Acquire,
        step matches FindStep::Acquire(next) ==> next.external == ask.external,
        gate matches Err(error) ==> (step matches FindStep::Done(end) && docs_end_with(
            end,
            SearchFailure::Error(error),
        )),
{
}

/// Whether there is an engine is remembered for the local index. A connected baseline is asked for
/// its snapshot first; without one the local index is searched where there is an engine.
pub proof fn a_connected_baseline_is_asked_first<L, H, S>(
    ask: AwaitFindEngine,
    engine: Result<bool, AcquireFailure>,
    step: FindStep<L, H, S>,
)
    requires
        call_ensures(AwaitFindEngine::answer::<L, H, S>, (ask, engine), step),
    ensures
        step is ResolveSnapshot <==> ask.external && engine is Ok,
        step matches FindStep::ResolveSnapshot(next) ==> engine matches Ok(there) && next.engine
            == there,
        step is SearchLocal <==> !ask.external && (engine matches Ok(true)),
        !ask.external && (engine matches Ok(false)) ==> (step matches FindStep::Done(Ok(answer))
            && answer is NotReady),
        engine matches Err(failure) ==> (step matches FindStep::Done(end) && docs_end_waiting(
            end,
            failure,
        )),
{
}

/// A snapshot that was resolved is searched, and where there is none, or later no documents, the
/// local index is, as far as there is an engine. A failure ends the search as it came.
pub proof fn the_local_index_stands_in_for_the_baseline<L, H, S>(
    ask: AwaitFindSnapshot,
    resolution: Result<Option<S>, SearchFailure>,
    step: FindStep<L, H, S>,
    ask_view: AwaitFindView,
    view: Result<bool, SearchFailure>,
    step_view: FindStep<L, H, S>,
)
    requires
        call_ensures(AwaitFindSnapshot::answer::<L, H, S>, (ask, resolution), step),
        call_ensures(AwaitFindView::answer::<L, H, S>, (ask_view, view), step_view),
    ensures
        resolution matches Ok(Some(snapshot)) ==> (step matches FindStep::SearchBaseline(next)
            && next.engine == ask.engine && next.snapshot == snapshot),
        resolution matches Ok(None) ==> (ask.engine ==> step is SearchLocal) && (!ask.engine ==> (
        step matches FindStep::Done(Ok(answer)) && answer is NotReady)),
        resolution matches Err(failure) ==> (step matches FindStep::Done(end) && docs_end_with(
            end,
            failure,
        )),
        view matches Ok(true) ==> step_view is SearchView,
        view matches Ok(false) ==> (ask_view.engine ==> step_view is SearchLocal) && (
        !ask_view.engine ==> (step_view matches FindStep::Done(Ok(answer)) && answer is NotReady)),
        view matches Err(failure) ==> (step_view matches FindStep::Done(end) && docs_end_with(
            end,
            failure,
        )),
{
}

/// A baseline that answers a search by words is believed, also where it finds nothing. Only one
/// that cannot be asked right now is replaced, by its documents.
pub proof fn a_baseline_that_answers_words_is_believed<L, H, S>(
    ask: AwaitFindBaseline<S>,
    searched: Result<Vec<L>, BaselineCall<BaselineError>>,
    step: FindStep<L, H, S>,
)
    requires
        call_ensures(AwaitFindBaseline::<S>::answer::<L, H>, (ask, searched), step),
    ensures
        step is ResolveView <==> (searched matches Err(
            BaselineCall::Failed(BaselineError::Transient),
        )),
        step matches FindStep::ResolveView(next) ==> next.engine == ask.engine,
        !(step is ResolveView) ==> step is Done,
        searched matches Ok(hits) ==> {
            &&& hits@.len() == 0 ==> (step->Done_0 matches Ok(answer) && answer is NoHits)
            &&& hits@.len() > 0 ==> (step->Done_0 matches Ok(DocsAnswer::Baseline(given)) && given
                == hits)
        },
        searched matches Err(BaselineCall::Withdrawn) ==> docs_end_with(
            step->Done_0,
            SearchFailure::Cancelled,
        ),
        searched matches Err(BaselineCall::Failed(BaselineError::Terminal(error)))
            ==> docs_end_with(step->Done_0, SearchFailure::Error(error)),
{
}

/// What the documents or the local index found is the answer, and nothing found is an answer too.
/// A failure of the local index is an error of the server that says why.
pub proof fn what_was_found_is_the_answer<L, H, S>(
    documents: Vec<H>,
    ask: AwaitFindDocuments,
    step: FindStep<L, H, S>,
    searched: Result<Vec<H>, String>,
    ask_words: AwaitFindLocal,
    by_words: FindStep<L, H, S>,
    ask_meaning: AwaitSearchLocal,
    by_meaning: SearchStep<L, H, S>,
)
    requires
        call_ensures(AwaitFindDocuments::answer::<L, H, S>, (ask, documents), step),
        call_ensures(AwaitFindLocal::answer::<L, H, S>, (ask_words, searched), by_words),
        call_ensures(AwaitSearchLocal::answer::<L, H, S>, (ask_meaning, searched), by_meaning),
    ensures
        documents@.len() == 0 ==> (step matches FindStep::Done(Ok(answer)) && answer is NoHits),
        documents@.len() > 0 ==> (step matches FindStep::Done(Ok(DocsAnswer::Documents(given)))
            && given == documents),
        by_words is Done,
        by_meaning is Done,
        searched matches Ok(hits) ==> {
            &&& hits@.len() == 0 ==> (by_words->Done_0 matches Ok(answer) && answer is NoHits)
            &&& hits@.len() == 0 ==> (by_meaning->Done_0 matches Ok(answer) && answer is NoHits)
            &&& hits@.len() > 0 ==> (by_words->Done_0 matches Ok(DocsAnswer::Documents(given))
                && given == hits)
            &&& hits@.len() > 0 ==> (by_meaning->Done_0 matches Ok(DocsAnswer::Documents(given))
                && given == hits)
        },
        searched matches Err(error) ==> docs_end_broken(by_words->Done_0, "search error: "@ + error@)
            && docs_end_broken(by_meaning->Done_0, "search error: "@ + error@),
{
}

/// A search by meaning first checks that the baseline runs, then waits for the engine, and
/// remembers whether a baseline is connected.
pub proof fn a_search_of_meaning_begins_at_its_gate<L, H, S>(
    external: bool,
    first: SearchStep<L, H, S>,
    ask: AwaitSearchGate,
    gate: Result<(), McpError>,
    step: SearchStep<L, H, S>,
)
    requires
        call_ensures(search_docs::<L, H, S>, (external,), first),
        call_ensures(AwaitSearchGate::answer::<L, H, S>, (ask, gate), step),
    ensures
        first matches SearchStep::CheckRuntime(next) && next.external == external,
        gate is Ok <==> step is Acquire,
        step matches SearchStep::Acquire(next) ==> next.external == ask.external,
        gate matches Err(error) ==> (step matches SearchStep::Done(end) && docs_end_with(
            end,
            SearchFailure::Error(error),
        )),
{
}

/// An engine is searched by meaning only where it does so and has an embedder; either missing is
/// refused. The snapshot of a connected baseline is resolved before the query is embedded, and the
/// model and the dimension of the engine are remembered.
pub proof fn only_an_engine_with_vectors_is_searched_by_meaning<L, H, S>(
    ask: AwaitSearchEngine,
    engine: Result<Option<DocsEngine>, AcquireFailure>,
    step: SearchStep<L, H, S>,
)
    requires
        call_ensures(AwaitSearchEngine::answer::<L, H, S>, (ask, engine), step),
    ensures
        engine matches Err(failure) ==> (step matches SearchStep::Done(end) && docs_end_waiting(
            end,
            failure,
        )),
        engine matches Ok(None) ==> (step matches SearchStep::Done(Ok(answer)) && answer
            is NotReady),
        engine matches Ok(Some(found)) ==> {
            &&& !found.has_semantic || !found.has_embedder ==> (step matches SearchStep::Done(
                Err(SearchFailure::Error(error)),
            ) && refuses(
                error,
                "Semantic search not available. Set EMBEDDING_URL and EMBEDDING_MODEL environment variables and restart. Use find_docs for text search instead."@,
            ))
            &&& found.has_semantic && found.has_embedder && ask.external ==> (step
                matches SearchStep::ResolveSnapshot(next) && next.model == found.model && next.dim
                == found.dim)
            &&& found.has_semantic && found.has_embedder && !ask.external ==> (step
                matches SearchStep::Embed(next) && next.model == found.model && next.dim
                == found.dim && next.snapshot is None)
        },
{
}

/// The query is embedded for the snapshot that was resolved, or for none, and what is known of the
/// vectors goes with it; a query that was not embedded is not searched for.
pub proof fn what_is_known_of_the_vectors_goes_along<L, H, S>(
    ask: AwaitSearchSnapshot,
    resolution: Result<Option<S>, SearchFailure>,
    step: SearchStep<L, H, S>,
    ask_embedding: AwaitSearchEmbedding<S>,
    embedded: DocsEmbedding,
    step_embedding: SearchStep<L, H, S>,
)
    requires
        call_ensures(AwaitSearchSnapshot::answer::<L, H, S>, (ask, resolution), step),
        call_ensures(
            AwaitSearchEmbedding::<S>::answer::<L, H>,
            (ask_embedding, embedded),
            step_embedding,
        ),
    ensures
        resolution matches Ok(snapshot) ==> (step matches SearchStep::Embed(next) && next.model
            == ask.model && next.dim == ask.dim && next.snapshot == snapshot),
        resolution matches Err(failure) ==> (step matches SearchStep::Done(end) && docs_end_with(
            end,
            failure,
        )),
        embedded is Embedded <==> step_embedding is Reacquire,
        step_embedding matches SearchStep::Reacquire(next) ==> next.model == ask_embedding.model
            && next.dim == ask_embedding.dim && next.snapshot == ask_embedding.snapshot,
        embedded matches DocsEmbedding::Failed(error) ==> (step_embedding matches SearchStep::Done(
            end,
        ) && docs_end_broken(end, "search error: "@ + error@)),
        embedded is Withdrawn ==> (step_embedding matches SearchStep::Done(end) && docs_end_with(
            end,
            SearchFailure::Cancelled,
        )),
{
}

/// An engine that is had again is searched in the snapshot that was resolved, with the model and
/// the dimension that are known, and locally where there is no snapshot. A snapshot cannot be
/// searched without either of the two.
pub proof fn a_snapshot_is_searched_with_known_vectors<L, H, S>(
    ask: AwaitSearchReacquired<S>,
    engine: Result<Option<bool>, AcquireFailure>,
    step: SearchStep<L, H, S>,
)
    requires
        call_ensures(AwaitSearchReacquired::<S>::answer::<L, H>, (ask, engine), step),
    ensures
        engine matches Err(failure) ==> (step matches SearchStep::Done(end) && docs_end_waiting(
            end,
            failure,
        )),
        engine matches Ok(None) ==> (step matches SearchStep::Done(Ok(answer)) && answer
            is NotReady),
        engine matches Ok(Some(false)) ==> (step matches SearchStep::Done(
            Err(SearchFailure::Error(error)),
        ) && refuses(
            error,
            "Semantic search not available. Set EMBEDDING_URL and EMBEDDING_MODEL environment variables and restart. Use find_docs for text search instead."@,
        )),
        step is SearchLocal <==> (engine matches Ok(Some(true))) && ask.snapshot is None,
        step is SearchBaseline <==> (engine matches Ok(Some(true))) && ask.snapshot is Some
            && ask.model is Some && ask.dim is Some,
        step matches SearchStep::SearchBaseline(next) ==> Some(next.snapshot) == ask.snapshot
            && Some(next.model) == ask.model && Some(next.dim) == ask.dim,
        (engine matches Ok(Some(true))) && ask.snapshot is Some && ask.model is None ==> (step
            matches SearchStep::Done(end) && docs_end_broken(
            end,
            "search error: "@ + "semantic model id is unavailable"@,
        )),
        (engine matches Ok(Some(true))) && ask.snapshot is Some && ask.model is Some && ask.dim
            is None ==> (step matches SearchStep::Done(end) && docs_end_broken(
            end,
            "search error: "@ + "embedding dimension is unavailable"@,
        )),
{
}

/// A baseline that answers a search by meaning is believed, also where it finds nothing. Only one
/// that cannot be asked right now is replaced, by the local index.
pub proof fn a_baseline_that_answers_meaning_is_believed<L, H, S>(
    ask: AwaitSearchBaseline<S>,
    searched: Result<Vec<L>, BaselineCall<BaselineError>>,
    step: SearchStep<L, H, S>,
)
    requires
        call_ensures(AwaitSearchBaseline::<S>::answer::<L, H>, (ask, searched), step),
    ensures
        step is SearchLocal <==> (searched matches Err(
            BaselineCall::Failed(BaselineError::Transient),
        )),
        !(step is SearchLocal) ==> step is Done,
        searched matches Ok(hits) ==> {
            &&& hits@.len() == 0 ==> (step->Done_0 matches Ok(answer) && answer is NoHits)
            &&& hits@.len() > 0 ==> (step->Done_0 matches Ok(DocsAnswer::Baseline(given)) && given
                == hits)
        },
        searched matches Err(BaselineCall::Withdrawn) ==> docs_end_with(
            step->Done_0,
            SearchFailure::Cancelled,
        ),
        searched matches Err(BaselineCall::Failed(BaselineError::Terminal(error)))
            ==> docs_end_with(step->Done_0, SearchFailure::Error(error)),
{
}

} // verus!
