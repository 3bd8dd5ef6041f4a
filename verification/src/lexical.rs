//! The lexical modality of a code search.
//!
//! The search asks its host one question at a time. Each question takes its answer and gives
//! the next step.

use crate::acquire::{engine_lock_poisoned_error, poisoned_text, AcquireFailure};
use crate::error::{plain_error, McpError, INTERNAL_ERROR};
use crate::refill::DirectResult;
use crate::search_types::{
    building_text, ends_broken, ends_cancelled, ends_pending, ends_ready, ends_with, hits_view,
    search_error, search_error_text, CodeHits, HitsView, SearchFailure,
    SearchScope,
};
use vstd::prelude::*;

verus! {

/// The next step of a lexical search.
#[derive(Debug, PartialEq, Eq)]
pub enum LexicalStep<H, R> {
    /// Check that the workspace may be searched and that its baseline runs.
    CheckGates(AwaitLexicalGates),
    /// Wait for the lock of the engine.
    Acquire(AwaitLexicalEngine),
    /// Search the baseline without an overlay.
    SearchBaselineAlone(AwaitBaselineAlone),
    /// Search the baseline under the overlay of the engine.
    SearchDirect(AwaitLexicalDirect<R>),
    /// Search the local index.
    SearchLocal(AwaitLexicalLocal<R>),
    Done(Result<CodeHits<H, R>, SearchFailure>),
}

/// The next step, with the texts of an end as sequences of characters.
pub enum LexicalView<H, R> {
    CheckGates(AwaitLexicalGates),
    Acquire(AwaitLexicalEngine),
    SearchBaselineAlone(AwaitBaselineAlone),
    SearchDirect(AwaitLexicalDirect<R>),
    SearchLocal(AwaitLexicalLocal<R>),
    Done(HitsView<H, R>),
}

impl<H, R> View for LexicalStep<H, R> {
    type V = LexicalView<H, R>;

    open spec fn view(&self) -> LexicalView<H, R> {
        match *self {
            LexicalStep::CheckGates(ask) => LexicalView::CheckGates(ask),
            LexicalStep::Acquire(ask) => LexicalView::Acquire(ask),
            LexicalStep::SearchBaselineAlone(ask) => LexicalView::SearchBaselineAlone(ask),
            LexicalStep::SearchDirect(ask) => LexicalView::SearchDirect(ask),
            LexicalStep::SearchLocal(ask) => LexicalView::SearchLocal(ask),
            LexicalStep::Done(result) => LexicalView::Done(hits_view(result)),
        }
    }
}

#[derive(Debug, Clone, Copy, PartialEq, Eq, Structural)]
pub struct AwaitLexicalGates {
    pub scope: SearchScope,
}

#[derive(Debug, Clone, Copy, PartialEq, Eq, Structural)]
pub struct AwaitLexicalEngine {
    pub scope: SearchScope,
}

/// A search of the baseline alone: because the engine is busy, or because there is none yet.
#[derive(Debug, Clone, Copy, PartialEq, Eq, Structural)]
pub struct AwaitBaselineAlone {
    pub busy: bool,
}

#[derive(Debug, Clone, PartialEq, Eq)]
pub struct AwaitLexicalDirect<R> {
    pub scope: SearchScope,
    pub roots: Option<R>,
}

#[derive(Debug, Clone, PartialEq, Eq)]
pub struct AwaitLexicalLocal<R> {
    pub roots: Option<R>,
}

/// What a search reads of the engine while it holds its lock.
#[derive(Debug, Clone, PartialEq, Eq)]
pub struct LexicalEngine<R> {
    pub roots: Option<R>,
}

/// The text of an engine that is busy.
pub open spec fn busy_text() -> Seq<char> {
    "Search index is busy (a long operation is holding it); please try again in a moment."@
}

/// The text of an empty answer of the baseline while the overlay is not there.
pub open spec fn warming_text() -> Seq<char> {
    "No results found (overlay is warming up, only baseline search available)."@
}

/// The text of a shared baseline that cannot be asked.
pub open spec fn unserved_text() -> Seq<char> {
    "Baseline lexical serving is temporarily unavailable; please retry shortly."@
}

/// Starts a lexical search.
pub fn lexical_code_hits<H, R>(scope: SearchScope) -> (step: LexicalStep<H, R>)
    ensures
        step@ == LexicalView::<H, R>::CheckGates(AwaitLexicalGates { scope }),
{
    LexicalStep::CheckGates(AwaitLexicalGates { scope })
}

impl AwaitLexicalGates {
    pub open spec fn next<H, R>(self, gates: Result<(), McpError>) -> LexicalView<H, R> {
        match gates {
            Ok(_) => LexicalView::Acquire(AwaitLexicalEngine { scope: self.scope }),
            Err(error) => LexicalView::Done(HitsView::Failed(error@)),
        }
    }

    pub fn answer<H, R>(self, gates: Result<(), McpError>) -> (step: LexicalStep<H, R>)
        ensures
            step@ == self.next::<H, R>(gates),
    {
        match gates {
            Ok(_) => LexicalStep::Acquire(AwaitLexicalEngine { scope: self.scope }),
            Err(error) => LexicalStep::Done(Err(SearchFailure::Error(error))),
        }
    }
}

impl AwaitLexicalEngine {
    pub open spec fn next<H, R>(
        self,
        engine: Result<Option<LexicalEngine<R>>, AcquireFailure>,
    ) -> LexicalView<H, R> {
        match engine {
            Err(AcquireFailure::Poisoned) => LexicalView::Done(
                HitsView::Failed(plain_error(INTERNAL_ERROR, poisoned_text())),
            ),
            Err(AcquireFailure::Cancelled) => LexicalView::Done(HitsView::Cancelled),
            Err(AcquireFailure::TimedOut) => if self.scope.external {
                LexicalView::SearchBaselineAlone(AwaitBaselineAlone { busy: true })
            } else {
                LexicalView::Done(HitsView::Pending(busy_text()))
            },
            Ok(Some(engine)) => if self.scope.external {
                LexicalView::SearchDirect(
                    AwaitLexicalDirect { scope: self.scope, roots: engine.roots },
                )
            } else {
                LexicalView::SearchLocal(AwaitLexicalLocal { roots: engine.roots })
            },
            Ok(None) => if self.scope.external {
                LexicalView::SearchBaselineAlone(AwaitBaselineAlone { busy: false })
            } else {
                LexicalView::Done(HitsView::Pending(building_text()))
            },
        }
    }

    /// The lock was had, with or without an engine behind it, or not.
    pub fn answer<H, R>(
        self,
        engine: Result<Option<LexicalEngine<R>>, AcquireFailure>,
    ) -> (step: LexicalStep<H, R>)
        ensures
            step@ == self.next::<H, R>(engine),
    {
        match engine {
            Err(AcquireFailure::Poisoned) => LexicalStep::Done(
                Err(SearchFailure::Error(engine_lock_poisoned_error())),
            ),
            Err(AcquireFailure::Cancelled) => LexicalStep::Done(Err(SearchFailure::Cancelled)),
            Err(AcquireFailure::TimedOut) => if self.scope.external {
                LexicalStep::SearchBaselineAlone(AwaitBaselineAlone { busy: true })
            } else {
                LexicalStep::Done(
                    Ok(
                        CodeHits::Pending(
                            "Search index is busy (a long operation is holding it); please try again in a moment.".to_owned(),
                        ),
                    ),
                )
            },
            Ok(Some(engine)) => if self.scope.external {
                LexicalStep::SearchDirect(
                    AwaitLexicalDirect { scope: self.scope, roots: engine.roots },
                )
            } else {
                LexicalStep::SearchLocal(AwaitLexicalLocal { roots: engine.roots })
            },
            Ok(None) => if self.scope.external {
                LexicalStep::SearchBaselineAlone(AwaitBaselineAlone { busy: false })
            } else {
                LexicalStep::Done(
                    Ok(
                        CodeHits::Pending(
                            "Search index is being built, please try again in a moment.".to_owned(),
                        ),
                    ),
                )
            },
        }
    }
}

impl AwaitBaselineAlone {
    pub open spec fn next<H, R>(self, direct: DirectResult<H>) -> LexicalView<H, R> {
        match direct {
            DirectResult::Found(hits) => if self.busy && hits@.len() == 0 {
                LexicalView::Done(HitsView::Pending(warming_text()))
            } else {
                LexicalView::Done(HitsView::Ready(hits, None))
            },
            DirectResult::Terminal(error) => LexicalView::Done(HitsView::Failed(error@)),
            DirectResult::Cancelled => LexicalView::Done(HitsView::Cancelled),
            DirectResult::Unavailable => LexicalView::Done(
                HitsView::Pending(if self.busy {
                    busy_text()
                } else {
                    building_text()
                }),
            ),
        }
    }

    pub fn answer<H, R>(self, direct: DirectResult<H>) -> (step: LexicalStep<H, R>)
        ensures
            step@ == self.next::<H, R>(direct),
    {
        match direct {
            DirectResult::Found(hits) => if self.busy && hits.len() == 0 {
                LexicalStep::Done(
                    Ok(
                        CodeHits::Pending(
                            "No results found (overlay is warming up, only baseline search available).".to_owned(),
                        ),
                    ),
                )
            } else {
                LexicalStep::Done(Ok(CodeHits::Ready { hits, roots: None }))
            },
            DirectResult::Terminal(error) => LexicalStep::Done(Err(SearchFailure::Error(error))),
            DirectResult::Cancelled => LexicalStep::Done(Err(SearchFailure::Cancelled)),
            DirectResult::Unavailable => if self.busy {
                LexicalStep::Done(
                    Ok(
                        CodeHits::Pending(
                            "Search index is busy (a long operation is holding it); please try again in a moment.".to_owned(),
                        ),
                    ),
                )
            } else {
                LexicalStep::Done(
                    Ok(
                        CodeHits::Pending(
                            "Search index is being built, please try again in a moment.".to_owned(),
                        ),
                    ),
                )
            },
        }
    }
}

impl<R> AwaitLexicalDirect<R> {
    pub open spec fn next<H>(self, direct: DirectResult<H>) -> LexicalView<H, R> {
        match direct {
            DirectResult::Found(hits) => LexicalView::Done(HitsView::Ready(hits, self.roots)),
            DirectResult::Terminal(error) => LexicalView::Done(HitsView::Failed(error@)),
            DirectResult::Cancelled => LexicalView::Done(HitsView::Cancelled),
            DirectResult::Unavailable => if self.scope.remote() {
                LexicalView::Done(HitsView::Pending(unserved_text()))
            } else {
                LexicalView::SearchLocal(AwaitLexicalLocal { roots: self.roots })
            },
        }
    }

    /// A baseline that cannot be asked is replaced by the local index, unless the workspace is
    /// searched in the shared baseline alone.
    pub fn answer<H>(self, direct: DirectResult<H>) -> (step: LexicalStep<H, R>)
        ensures
            step@ == self.next::<H>(direct),
    {
        match direct {
            DirectResult::Found(hits) => LexicalStep::Done(
                Ok(CodeHits::Ready { hits, roots: self.roots }),
            ),
            DirectResult::Terminal(error) => LexicalStep::Done(Err(SearchFailure::Error(error))),
            DirectResult::Cancelled => LexicalStep::Done(Err(SearchFailure::Cancelled)),
            DirectResult::Unavailable => if self.scope.is_remote() {
                LexicalStep::Done(
                    Ok(
                        CodeHits::Pending(
                            "Baseline lexical serving is temporarily unavailable; please retry shortly.".to_owned(),
                        ),
                    ),
                )
            } else {
                LexicalStep::SearchLocal(AwaitLexicalLocal { roots: self.roots })
            },
        }
    }
}

impl<R> AwaitLexicalLocal<R> {
    pub open spec fn next<H>(self, searched: Result<Vec<H>, String>) -> LexicalView<H, R> {
        match searched {
            Ok(hits) => LexicalView::Done(HitsView::Ready(hits, self.roots)),
            Err(error) => LexicalView::Done(
                HitsView::Failed(plain_error(INTERNAL_ERROR, search_error_text(error@))),
            ),
        }
    }

    pub fn answer<H>(self, searched: Result<Vec<H>, String>) -> (step: LexicalStep<H, R>)
        ensures
            step@ == self.next::<H>(searched),
    {
        match searched {
            Ok(hits) => LexicalStep::Done(Ok(CodeHits::Ready { hits, roots: self.roots })),
            Err(error) => LexicalStep::Done(Err(search_error(error.as_str()))),
        }
    }
}

/// What a host answers to every question that a lexical search may ask.
pub struct LexicalAnswers<H, R> {
    pub gates: Result<(), McpError>,
    pub engine: Result<Option<LexicalEngine<R>>, AcquireFailure>,
    pub alone: DirectResult<H>,
    pub direct: DirectResult<H>,
    pub local: Result<Vec<H>, String>,
}

/// The step after `step`, for a host with these answers.
pub open spec fn lexical_answered<H, R>(
    step: LexicalView<H, R>,
    answers: LexicalAnswers<H, R>,
) -> LexicalView<H, R> {
    match step {
        LexicalView::CheckGates(ask) => ask.next::<H, R>(answers.gates),
        LexicalView::Acquire(ask) => ask.next::<H, R>(answers.engine),
        LexicalView::SearchBaselineAlone(ask) => ask.next::<H, R>(answers.alone),
        LexicalView::SearchDirect(ask) => ask.next::<H>(answers.direct),
        LexicalView::SearchLocal(ask) => ask.next::<H>(answers.local),
        LexicalView::Done(result) => LexicalView::Done(result),
    }
}

/// A whole lexical search: it asks at most four questions.
pub open spec fn whole_lexical<H, R>(
    scope: SearchScope,
    answers: LexicalAnswers<H, R>,
) -> LexicalView<H, R> {
    let step0 = LexicalView::<H, R>::CheckGates(AwaitLexicalGates { scope });
    let step1 = lexical_answered(step0, answers);
    let step2 = lexical_answered(step1, answers);
    let step3 = lexical_answered(step2, answers);
    lexical_answered(step3, answers)
}

/// A lexical search ends after at most four answers, and its answer is never that it is
/// unavailable: it is the floor under the semantic one.
pub proof fn a_lexical_search_ends<H, R>(scope: SearchScope, answers: LexicalAnswers<H, R>)
    ensures
        whole_lexical(scope, answers) is Done,
        !(whole_lexical(scope, answers)->Done_0 is Unavailable),
{
}

/// A cancelled request is a failure and never an invitation to ask again: wherever the request
/// is cancelled, the search ends cancelled.
pub proof fn a_cancelled_lexical_search_is_cancelled<H, R>(
    scope: SearchScope,
    answers: LexicalAnswers<H, R>,
)
    requires
        answers.gates is Ok,
    ensures
        answers.engine == Err::<Option<LexicalEngine<R>>, AcquireFailure>(AcquireFailure::Cancelled)
            ==> whole_lexical(scope, answers)->Done_0 is Cancelled,
        scope.external && (answers.engine matches Ok(Some(_))) && answers.direct is Cancelled
            ==> whole_lexical(scope, answers)->Done_0 is Cancelled,
        scope.external && (answers.engine matches Ok(None)) && answers.alone is Cancelled
            ==> whole_lexical(scope, answers)->Done_0 is Cancelled,
        scope.external && answers.engine == Err::<Option<LexicalEngine<R>>, AcquireFailure>(
            AcquireFailure::TimedOut,
        ) && answers.alone is Cancelled ==> whole_lexical(scope, answers)->Done_0 is Cancelled,
{
}

/// A workspace that is searched in the shared baseline is never answered from the local index:
/// what the local index holds makes no difference.
pub proof fn a_shared_baseline_is_never_replaced_by_the_local_index<H, R>(
    scope: SearchScope,
    answers: LexicalAnswers<H, R>,
    other_local: Result<Vec<H>, String>,
)
    requires
        scope.remote(),
        scope.external,
    ensures
        whole_lexical(scope, answers) == whole_lexical(
            scope,
            LexicalAnswers { local: other_local, ..answers },
        ),
{
}

/// A whole lexical search by what its host answers. A workspace that may not be searched, a lock
/// that is poisoned and a request that is withdrawn end it at once. An engine without an external
/// baseline is searched locally, and so is one whose baseline cannot be asked where the workspace
/// has an index of its own. Where no engine can be had, the baseline alone is searched; its hits
/// have no roots.
pub proof fn a_lexical_search_is_answered_from_where_it_can_be<H, R>(
    scope: SearchScope,
    answers: LexicalAnswers<H, R>,
)
    ensures
        ({
            let end = whole_lexical(scope, answers)->Done_0;
            let building = "Search index is being built, please try again in a moment."@;
            let busy =
                "Search index is busy (a long operation is holding it); please try again in a moment."@;
            let passed = answers.gates is Ok;
            let engine = answers.engine;
            let locally = passed && (engine matches Ok(Some(_))) && (!scope.external || (
            answers.direct is Unavailable && !(scope.mode is PostgresRemoteOverlay)));
            let directly = passed && (engine matches Ok(Some(_))) && scope.external;
            let timed_out = engine matches Err(AcquireFailure::TimedOut);
            let no_engine = engine matches Ok(None);
            let alone = passed && scope.external && (timed_out || no_engine);
            &&& answers.gates matches Err(error) ==> end == HitsView::<H, R>::Failed(error@)
            &&& passed && (engine matches Err(AcquireFailure::Poisoned)) ==> (end
                matches HitsView::Failed(error) && error.code == -32603 && error.reason_code is None && error.message
                == "search engine lock is poisoned (a prior operation panicked); restart the MCP server"@)
            &&& passed && (engine matches Err(AcquireFailure::Cancelled)) ==> end is Cancelled
            &&& passed && !scope.external && timed_out ==> end == HitsView::<H, R>::Pending(busy)
            &&& passed && !scope.external && no_engine ==> end == HitsView::<H, R>::Pending(
                building,
            )
            &&& locally ==> {
                &&& answers.local matches Ok(hits) ==> end == HitsView::Ready(
                    hits,
                    engine->Ok_0->Some_0.roots,
                )
                &&& answers.local matches Err(error) ==> (end matches HitsView::Failed(given)
                    && given.code == -32603 && given.reason_code is None && given.message == "search error: "@ + error@)
            }
            &&& directly ==> {
                &&& answers.direct matches DirectResult::Found(hits) ==> end == HitsView::Ready(
                    hits,
                    engine->Ok_0->Some_0.roots,
                )
                &&& answers.direct matches DirectResult::Terminal(error) ==> end == HitsView::<
                    H,
                    R,
                >::Failed(error@)
                &&& answers.direct is Cancelled ==> end is Cancelled
                &&& answers.direct is Unavailable && scope.mode is PostgresRemoteOverlay ==> end
                    == HitsView::<H, R>::Pending(
                    "Baseline lexical serving is temporarily unavailable; please retry shortly."@,
                )
            }
            &&& alone ==> {
                &&& answers.alone matches DirectResult::Found(hits) ==> if timed_out && hits@.len()
                    == 0 {
                    end == HitsView::<H, R>::Pending(
                        "No results found (overlay is warming up, only baseline search available)."@,
                    )
                } else {
                    end == HitsView::<H, R>::Ready(hits, None)
                }
                &&& answers.alone matches DirectResult::Terminal(error) ==> end == HitsView::<
                    H,
                    R,
                >::Failed(error@)
                &&& answers.alone is Cancelled ==> end is Cancelled
                &&& answers.alone is Unavailable ==> end == HitsView::<H, R>::Pending(
                    if timed_out { busy } else { building },
                )
            }
        }),
{
}

/// A lexical search first asks whether the workspace may be searched, then for the engine, each
/// time with the scope that it was started with.
pub proof fn a_lexical_search_begins_at_the_gates<H, R>(
    scope: SearchScope,
    first: LexicalStep<H, R>,
    ask: AwaitLexicalGates,
    gates: Result<(), McpError>,
    step: LexicalStep<H, R>,
)
    requires
        call_ensures(lexical_code_hits::<H, R>, (scope,), first),
        call_ensures(AwaitLexicalGates::answer::<H, R>, (ask, gates), step),
    ensures
        first matches LexicalStep::CheckGates(next) && next.scope == scope,
        gates is Ok <==> step is Acquire,
        step matches LexicalStep::Acquire(next) ==> next.scope == ask.scope,
        gates matches Err(error) ==> (step matches LexicalStep::Done(end) && ends_with(
            end,
            error,
        )),
{
}

/// The engine is searched under the baseline where one is connected and locally where none is,
/// with the roots that were read of it. Where it cannot be had, a connected baseline is searched
/// alone, and is told whether the engine is busy or not there yet.
pub proof fn the_scope_says_where_words_are_searched<H, R>(
    ask: AwaitLexicalEngine,
    engine: Result<Option<LexicalEngine<R>>, AcquireFailure>,
    step: LexicalStep<H, R>,
)
    requires
        call_ensures(AwaitLexicalEngine::answer::<H, R>, (ask, engine), step),
    ensures
        step is SearchDirect <==> ask.scope.external && (engine matches Ok(Some(_))),
        step matches LexicalStep::SearchDirect(next) ==> next.scope == ask.scope && next.roots
            == engine->Ok_0->Some_0.roots,
        step is SearchLocal <==> !ask.scope.external && (engine matches Ok(Some(_))),
        step matches LexicalStep::SearchLocal(next) ==> next.roots == engine->Ok_0->Some_0.roots,
        step is SearchBaselineAlone <==> ask.scope.external && ((engine matches Ok(None)) || (engine
            matches Err(AcquireFailure::TimedOut))),
        step matches LexicalStep::SearchBaselineAlone(next) ==> (next.busy <==> engine is Err),
        engine matches Err(AcquireFailure::Poisoned) ==> (step matches LexicalStep::Done(end)
            && ends_broken(
            end,
            "search engine lock is poisoned (a prior operation panicked); restart the MCP server"@,
        )),
        engine matches Err(AcquireFailure::Cancelled) ==> (step matches LexicalStep::Done(end)
            && ends_cancelled(end)),
        !ask.scope.external && (engine matches Err(AcquireFailure::TimedOut)) ==> (step
            matches LexicalStep::Done(end) && ends_pending(
            end,
            "Search index is busy (a long operation is holding it); please try again in a moment."@,
        )),
        !ask.scope.external && (engine matches Ok(None)) ==> (step matches LexicalStep::Done(end)
            && ends_pending(end, "Search index is being built, please try again in a moment."@)),
{
}

/// A search of the baseline alone gives its hits without roots. None of them is an answer of its
/// own, except that a busy engine may have more, and says so.
pub proof fn a_baseline_alone_gives_its_hits<H, R>(
    ask: AwaitBaselineAlone,
    direct: DirectResult<H>,
    step: LexicalStep<H, R>,
)
    requires
        call_ensures(AwaitBaselineAlone::answer::<H, R>, (ask, direct), step),
    ensures
        step is Done,
        direct matches DirectResult::Found(hits) ==> {
            &&& !ask.busy || hits@.len() > 0 ==> ends_ready(step->Done_0, hits@, None)
            &&& ask.busy && hits@.len() == 0 ==> ends_pending(
                step->Done_0,
                "No results found (overlay is warming up, only baseline search available)."@,
            )
        },
        direct matches DirectResult::Terminal(error) ==> ends_with(step->Done_0, error),
        direct is Cancelled ==> ends_cancelled(step->Done_0),
        direct is Unavailable && ask.busy ==> ends_pending(
            step->Done_0,
            "Search index is busy (a long operation is holding it); please try again in a moment."@,
        ),
        direct is Unavailable && !ask.busy ==> ends_pending(
            step->Done_0,
            "Search index is being built, please try again in a moment."@,
        ),
{
}

/// What the baseline found under the overlay is given with the roots of the engine. A baseline that
/// cannot be asked is replaced by the local index, with the same roots, exactly where the workspace
/// has one.
pub proof fn a_baseline_under_the_overlay_gives_its_hits<H, R>(
    ask: AwaitLexicalDirect<R>,
    direct: DirectResult<H>,
    step: LexicalStep<H, R>,
)
    requires
        call_ensures(AwaitLexicalDirect::<R>::answer::<H>, (ask, direct), step),
    ensures
        step is SearchLocal <==> direct is Unavailable && ask.scope.mode is SqliteLocal,
        step matches LexicalStep::SearchLocal(next) ==> next.roots == ask.roots,
        !(step is SearchLocal) ==> step is Done,
        direct matches DirectResult::Found(hits) ==> ends_ready(step->Done_0, hits@, ask.roots),
        direct matches DirectResult::Terminal(error) ==> ends_with(step->Done_0, error),
        direct is Cancelled ==> ends_cancelled(step->Done_0),
        direct is Unavailable && !(ask.scope.mode is SqliteLocal) ==> ends_pending(
            step->Done_0,
            "Baseline lexical serving is temporarily unavailable; please retry shortly."@,
        ),
{
}

/// What the local index found is given with the roots of the engine, and its failure is an error
/// of the server that says why.
pub proof fn a_local_search_by_words_gives_its_hits<H, R>(
    ask: AwaitLexicalLocal<R>,
    searched: Result<Vec<H>, String>,
    step: LexicalStep<H, R>,
)
    requires
        call_ensures(AwaitLexicalLocal::<R>::answer::<H>, (ask, searched), step),
    ensures
        step is Done,
        searched matches Ok(hits) ==> ends_ready(step->Done_0, hits@, ask.roots),
        searched matches Err(error) ==> ends_broken(step->Done_0, "search error: "@ + error@),
{
}

} // verus!
