//! Code search: the lexical and the semantic modality together.
//!
//! The lexical modality is the floor. Where the semantic one is missing, its absence is noted
//! under the hits of the lexical one.

use crate::error::{breaks, broken, internal_error, same_error, ErrorView, McpError};
use crate::search_types::{
    building_text, hits_view, CodeHits, HitsView, SearchFailure, SemanticUnavailable,
    UnavailableView,
};
use vstd::prelude::*;
use vstd::utf8::{encode_scalar, encode_utf8};

verus! {

/// What the tags before the hits mean.
pub const MODALITY_LEGEND: &'static str =
    "Modality tag per hit: [L] lexical-only · [S] semantic-only · [L+S] found by both (cross-modal agreement).\n";

/// How many hits each modality is asked for, so that enough are left once they are fused.
pub open spec fn fetch_size(limit: usize, multiplier: usize) -> usize {
    if multiplier == 0 {
        limit
    } else if limit * multiplier > usize::MAX {
        usize::MAX
    } else {
        (limit * multiplier) as usize
    }
}

/// How many hits each modality is asked for.
pub fn hybrid_fetch(limit: usize, multiplier: usize) -> (fetch: usize)
    ensures
        fetch == fetch_size(limit, multiplier),
        fetch >= limit,
{
    if multiplier == 0 {
        return limit;
    }
    proof {
        assert(limit * multiplier >= limit) by (nonlinear_arith)
            requires
                multiplier >= 1,
        ;
    }
    match limit.checked_mul(multiplier) {
        Some(product) => product,
        None => usize::MAX,
    }
}

/// Why the semantic modality is missing, as the answer notes it.
#[derive(Debug, Clone, PartialEq, Eq)]
pub enum Degradation {
    /// The text of a modality that is not ready.
    Pending(String),
    Unavailable(SemanticUnavailable),
}

/// What a code search answers with.
#[derive(Debug, Clone, PartialEq, Eq)]
pub enum HybridAnswer<F, R> {
    /// Not yet; the text says why.
    NotReady(String),
    NoHits(Option<Degradation>),
    Hits { hits: Vec<F>, roots: Option<R>, note: Option<Degradation> },
}

/// The next step of a code search.
#[derive(Debug, PartialEq, Eq)]
pub enum HybridStep<H, F, R> {
    /// Ask whether the request still stands.
    CheckCancelled(AwaitStanding<H, R>),
    /// Run the semantic modality.
    Semantic(AwaitSemanticHits<H, R>),
    /// Fuse the hits of the two modalities.
    Fuse(AwaitFused<H, R>),
    Done(Result<HybridAnswer<F, R>, SearchFailure>),
}

/// A search that has its lexical hits.
#[derive(Debug, Clone, PartialEq, Eq)]
pub struct AwaitStanding<H, R> {
    pub lexical: Vec<H>,
    pub roots: Option<R>,
}

/// A search that waits for its semantic hits.
#[derive(Debug, Clone, PartialEq, Eq)]
pub struct AwaitSemanticHits<H, R> {
    pub lexical: Vec<H>,
    pub roots: Option<R>,
}

/// A search whose hits are fused.
#[derive(Debug, Clone, PartialEq, Eq)]
pub struct AwaitFused<H, R> {
    pub lexical: Vec<H>,
    pub semantic: Vec<H>,
    pub roots: Option<R>,
    pub note: Option<Degradation>,
}

/// Why the semantic modality is missing, with its texts as sequences of characters.
pub enum DegradationView {
    Pending(Seq<char>),
    Unavailable(UnavailableView),
}

impl View for Degradation {
    type V = DegradationView;

    open spec fn view(&self) -> DegradationView {
        match *self {
            Degradation::Pending(text) => DegradationView::Pending(text@),
            Degradation::Unavailable(reason) => DegradationView::Unavailable(reason@),
        }
    }
}

/// The note of an answer, where it has one.
pub open spec fn noted(note: Option<Degradation>) -> Option<DegradationView> {
    match note {
        Some(note) => Some(note@),
        None => None,
    }
}

/// What a code search ends with, with its texts and lists as sequences.
pub enum HybridEnd<F, R> {
    NotReady(Seq<char>),
    NoHits(Option<DegradationView>),
    Hits { hits: Seq<F>, roots: Option<R>, note: Option<DegradationView> },
    Failed(ErrorView),
    Cancelled,
}

/// What an answer is as the end of a search.
pub open spec fn answer_view<F, R>(answer: HybridAnswer<F, R>) -> HybridEnd<F, R> {
    match answer {
        HybridAnswer::NotReady(text) => HybridEnd::NotReady(text@),
        HybridAnswer::NoHits(note) => HybridEnd::NoHits(noted(note)),
        HybridAnswer::Hits { hits, roots, note } => HybridEnd::Hits {
            hits: hits@,
            roots,
            note: noted(note),
        },
    }
}

/// What a code search ends with.
pub open spec fn hybrid_end<F, R>(result: Result<HybridAnswer<F, R>, SearchFailure>) -> HybridEnd<
    F,
    R,
> {
    match result {
        Ok(answer) => answer_view(answer),
        Err(SearchFailure::Error(error)) => HybridEnd::Failed(error@),
        Err(SearchFailure::Cancelled) => HybridEnd::Cancelled,
    }
}

/// The next step of a code search, with its lists as sequences.
pub enum HybridView<H, F, R> {
    CheckCancelled { lexical: Seq<H>, roots: Option<R> },
    Semantic { lexical: Seq<H>, roots: Option<R> },
    Fuse {
        lexical: Seq<H>,
        semantic: Seq<H>,
        roots: Option<R>,
        note: Option<DegradationView>,
    },
    Done(HybridEnd<F, R>),
}

impl<H, F, R> View for HybridStep<H, F, R> {
    type V = HybridView<H, F, R>;

    open spec fn view(&self) -> HybridView<H, F, R> {
        match *self {
            HybridStep::CheckCancelled(ask) => HybridView::CheckCancelled {
                lexical: ask.lexical@,
                roots: ask.roots,
            },
            HybridStep::Semantic(ask) => HybridView::Semantic {
                lexical: ask.lexical@,
                roots: ask.roots,
            },
            HybridStep::Fuse(ask) => HybridView::Fuse {
                lexical: ask.lexical@,
                semantic: ask.semantic@,
                roots: ask.roots,
                note: noted(ask.note),
            },
            HybridStep::Done(result) => HybridView::Done(hybrid_end(result)),
        }
    }
}

/// The step after the lexical modality.
pub open spec fn after_lexical<H, F, R>(lexical: HitsView<H, R>) -> HybridView<H, F, R> {
    match lexical {
        HitsView::Ready(hits, roots) => HybridView::CheckCancelled { lexical: hits@, roots },
        HitsView::Pending(text) => HybridView::Done(HybridEnd::NotReady(text)),
        HitsView::Unavailable(_) => HybridView::Done(HybridEnd::NotReady(building_text())),
        HitsView::Failed(error) => HybridView::Done(HybridEnd::Failed(error)),
        HitsView::Cancelled => HybridView::Done(HybridEnd::Cancelled),
    }
}

/// The step after the semantic modality.
pub open spec fn after_semantic<H, F, R>(
    lexical: Seq<H>,
    roots: Option<R>,
    semantic: HitsView<H, R>,
) -> HybridView<H, F, R> {
    match semantic {
        HitsView::Ready(hits, _) => HybridView::Fuse { lexical, semantic: hits@, roots, note: None },
        HitsView::Pending(text) => HybridView::Fuse {
            lexical,
            semantic: Seq::empty(),
            roots,
            note: Some(DegradationView::Pending(text)),
        },
        HitsView::Unavailable(reason) => HybridView::Fuse {
            lexical,
            semantic: Seq::empty(),
            roots,
            note: Some(DegradationView::Unavailable(reason)),
        },
        HitsView::Failed(error) => HybridView::Done(HybridEnd::Failed(error)),
        HitsView::Cancelled => HybridView::Done(HybridEnd::Cancelled),
    }
}

/// The best `limit` of a list.
pub open spec fn best<F>(fused: Seq<F>, limit: usize) -> Seq<F> {
    if fused.len() <= limit {
        fused
    } else {
        fused.take(limit as int)
    }
}

/// The end of a search whose hits are fused.
pub open spec fn fused_end<F, R>(
    fused: Seq<F>,
    limit: usize,
    roots: Option<R>,
    note: Option<DegradationView>,
) -> HybridEnd<F, R> {
    if best(fused, limit).len() == 0 {
        HybridEnd::NoHits(note)
    } else {
        HybridEnd::Hits { hits: best(fused, limit), roots, note }
    }
}

/// Goes on from the lexical modality: without it there is nothing to answer with.
pub fn hybrid_code_cancellable<H, F, R>(
    lexical: Result<CodeHits<H, R>, SearchFailure>,
) -> (step: HybridStep<H, F, R>)
    ensures
        step@ == after_lexical::<H, F, R>(hits_view(lexical)),
{
    match lexical {
        Err(failure) => HybridStep::Done(Err(failure)),
        Ok(CodeHits::Ready { hits, roots }) => HybridStep::CheckCancelled(
            AwaitStanding { lexical: hits, roots },
        ),
        Ok(CodeHits::Pending(text)) => HybridStep::Done(Ok(HybridAnswer::NotReady(text))),
        Ok(CodeHits::Unavailable(_)) => HybridStep::Done(
            Ok(
                HybridAnswer::NotReady(
                    "Search index is being built, please try again in a moment.".to_owned(),
                ),
            ),
        ),
    }
}

impl<H, R> AwaitStanding<H, R> {
    pub open spec fn next<F>(self, cancelled: bool) -> HybridView<H, F, R> {
        if cancelled {
            HybridView::Done(HybridEnd::Cancelled)
        } else {
            HybridView::Semantic { lexical: self.lexical@, roots: self.roots }
        }
    }

    /// A request that was cancelled meanwhile is not searched by meaning.
    pub fn answer<F>(self, cancelled: bool) -> (step: HybridStep<H, F, R>)
        ensures
            step@ == self.next::<F>(cancelled),
    {
        if cancelled {
            HybridStep::Done(Err(SearchFailure::Cancelled))
        } else {
            HybridStep::Semantic(AwaitSemanticHits { lexical: self.lexical, roots: self.roots })
        }
    }
}

impl<H, R> AwaitSemanticHits<H, R> {
    /// Where the semantic modality is missing, the lexical hits are fused with nothing and the
    /// reason is noted. Only its failure is the failure of the search.
    pub fn answer<F>(
        self,
        semantic: Result<CodeHits<H, R>, SearchFailure>,
    ) -> (step: HybridStep<H, F, R>)
        ensures
            step@ == after_semantic::<H, F, R>(self.lexical@, self.roots, hits_view(semantic)),
    {
        match semantic {
            Err(failure) => HybridStep::Done(Err(failure)),
            Ok(CodeHits::Ready { hits, .. }) => HybridStep::Fuse(
                AwaitFused {
                    lexical: self.lexical,
                    semantic: hits,
                    roots: self.roots,
                    note: None,
                },
            ),
            Ok(CodeHits::Pending(text)) => HybridStep::Fuse(
                AwaitFused {
                    lexical: self.lexical,
                    semantic: Vec::new(),
                    roots: self.roots,
                    note: Some(Degradation::Pending(text)),
                },
            ),
            Ok(CodeHits::Unavailable(reason)) => HybridStep::Fuse(
                AwaitFused {
                    lexical: self.lexical,
                    semantic: Vec::new(),
                    roots: self.roots,
                    note: Some(Degradation::Unavailable(reason)),
                },
            ),
        }
    }
}

impl<H, R> AwaitFused<H, R> {
    /// The best `limit` of the fused hits, in their order.
    pub fn answer<F>(self, fused: Vec<F>, limit: usize) -> (answer: HybridAnswer<F, R>)
        ensures
            answer_view(answer) == fused_end(fused@, limit, self.roots, noted(self.note)),
    {
        let mut hits: Vec<F> = fused;
        hits.truncate(limit);
        proof {
            assert(fused@.subrange(0, fused@.len() as int) =~= fused@);
        }
        if hits.len() == 0 {
            HybridAnswer::NoHits(self.note)
        } else {
            HybridAnswer::Hits { hits, roots: self.roots, note: self.note }
        }
    }
}

/// A whole code search: what the lexical modality gave, whether the request was cancelled after
/// it, what the semantic modality gave, and how the two are fused.
pub open spec fn whole_hybrid<H, F, R>(
    lexical: HitsView<H, R>,
    cancelled: bool,
    semantic: HitsView<H, R>,
    fuse: spec_fn(Seq<H>, Seq<H>) -> Seq<F>,
    limit: usize,
) -> HybridEnd<F, R> {
    match after_lexical::<H, F, R>(lexical) {
        HybridView::CheckCancelled { lexical, roots } => if cancelled {
            HybridEnd::Cancelled
        } else {
            match after_semantic::<H, F, R>(lexical, roots, semantic) {
                HybridView::Fuse { lexical, semantic, roots, note } => fused_end(
                    fuse(lexical, semantic),
                    limit,
                    roots,
                    note,
                ),
                HybridView::Done(end) => end,
                _ => HybridEnd::Cancelled,
            }
        },
        HybridView::Done(end) => end,
        _ => HybridEnd::Cancelled,
    }
}

/// Where both modalities have answered and the request stands, the search ends with the first
/// `limit` of their fused hits in the order of the fusion, with the roots of the lexical side and
/// no note. That holds whether the lexical side found anything or not: the search says that there
/// are no hits only where the fusion is empty or nothing was asked for.
pub proof fn what_both_modalities_found_is_fused<H, F, R>(
    lexical: Vec<H>,
    roots: Option<R>,
    semantic: Vec<H>,
    semantic_roots: Option<R>,
    fuse: spec_fn(Seq<H>, Seq<H>) -> Seq<F>,
    limit: usize,
)
    ensures
        ({
            let fused = fuse(lexical@, semantic@);
            let end = whole_hybrid(
                HitsView::Ready(lexical, roots),
                false,
                HitsView::Ready(semantic, semantic_roots),
                fuse,
                limit,
            );
            &&& end is NoHits <==> fused.len() == 0 || limit == 0
            &&& end is Hits <==> fused.len() > 0 && limit > 0
            &&& end matches HybridEnd::NoHits(note) ==> note is None
            &&& end matches HybridEnd::Hits { hits, roots: given, note } ==> {
                &&& hits.len() == if fused.len() < limit { fused.len() } else { limit as nat }
                &&& forall|i: int| 0 <= i < hits.len() ==> hits[i] == fused[i]
                &&& given == roots
                &&& note is None
            }
        }),
{
}

/// Where the semantic modality cannot serve, the search is not lost: it is answered from the
/// lexical hits alone, as if the semantic modality had found nothing, and the reason is noted in
/// the answer, with hits or without.
pub proof fn a_missing_semantic_modality_is_noted<H, F, R>(
    hits: Vec<H>,
    roots: Option<R>,
    semantic: HitsView<H, R>,
    fuse: spec_fn(Seq<H>, Seq<H>) -> Seq<F>,
    limit: usize,
)
    requires
        semantic is Pending || semantic is Unavailable,
    ensures
        ({
            let reason = match semantic {
                HitsView::Pending(text) => DegradationView::Pending(text),
                _ => DegradationView::Unavailable(semantic->Unavailable_0),
            };
            let fused = fuse(hits@, Seq::empty());
            let end = whole_hybrid(HitsView::Ready(hits, roots), false, semantic, fuse, limit);
            &&& end is NoHits <==> fused.len() == 0 || limit == 0
            &&& end is Hits <==> fused.len() > 0 && limit > 0
            &&& end matches HybridEnd::NoHits(note) ==> note == Some(reason)
            &&& end matches HybridEnd::Hits { hits, roots: given, note } ==> {
                &&& hits.len() == if fused.len() < limit { fused.len() } else { limit as nat }
                &&& forall|i: int| 0 <= i < hits.len() ==> hits[i] == fused[i]
                &&& given == roots
                &&& note == Some(reason)
            }
        }),
{
}

/// Where both modalities are asked, nothing but a failure of the semantic one is the failure of
/// the search: its error is handed on as it came, and a request that was withdrawn, before the
/// semantic modality or during it, ends as withdrawn.
pub proof fn a_failure_of_the_semantic_modality_ends_the_search<H, F, R>(
    hits: Vec<H>,
    roots: Option<R>,
    cancelled: bool,
    semantic: HitsView<H, R>,
    fuse: spec_fn(Seq<H>, Seq<H>) -> Seq<F>,
    limit: usize,
)
    ensures
        ({
            let end = whole_hybrid(HitsView::Ready(hits, roots), cancelled, semantic, fuse, limit);
            &&& end is Cancelled <==> cancelled || semantic is Cancelled
            &&& end is Failed <==> !cancelled && semantic is Failed
            &&& end is Failed ==> end == HybridEnd::<F, R>::Failed(semantic->Failed_0)
            &&& !(end is NotReady)
        }),
{
}

/// The lexical modality is the floor: where it has no hits to give, its end is the end of the
/// search, whatever the semantic modality would have found.
pub proof fn without_the_lexical_modality_there_is_no_answer<H, F, R>(
    lexical: HitsView<H, R>,
    cancelled: bool,
    semantic: HitsView<H, R>,
    fuse: spec_fn(Seq<H>, Seq<H>) -> Seq<F>,
    limit: usize,
)
    requires
        !(lexical is Ready),
    ensures
        ({
            let end = whole_hybrid(lexical, cancelled, semantic, fuse, limit);
            &&& lexical matches HitsView::Failed(error) ==> end == HybridEnd::<F, R>::Failed(error)
            &&& lexical is Cancelled ==> end is Cancelled
            &&& lexical matches HitsView::Pending(text) ==> end == HybridEnd::<F, R>::NotReady(text)
            &&& lexical is Unavailable ==> end == HybridEnd::<F, R>::NotReady(
                "Search index is being built, please try again in a moment."@,
            )
        }),
{
}

/// A search never gives more hits than it was asked for, gives the best ones in their order,
/// and says that there are none only where there are none.
pub proof fn an_answer_keeps_to_its_limit<F, R>(
    fused: Seq<F>,
    limit: usize,
    roots: Option<R>,
    note: Option<DegradationView>,
)
    ensures
        match fused_end(fused, limit, roots, note) {
            HybridEnd::Hits { hits, .. } => 0 < hits.len() <= limit && hits.is_prefix_of(fused),
            HybridEnd::NoHits(_) => fused.len() == 0 || limit == 0,
            _ => false,
        },
{
}

/// The answer of a caller that cannot be cancelled: a cancellation is an internal error.
pub fn hybrid_code<A>(answer: Result<A, SearchFailure>) -> (result: Result<A, McpError>)
    ensures
        match answer {
            Ok(value) => result == Ok::<A, McpError>(value),
            Err(SearchFailure::Error(error)) => result == Err::<A, McpError>(error),
            Err(SearchFailure::Cancelled) => broken(result, "request cancelled"@),
        },
{
    match answer {
        Ok(value) => Ok(value),
        Err(SearchFailure::Error(error)) => Err(error),
        Err(SearchFailure::Cancelled) => Err(internal_error("request cancelled".to_owned())),
    }
}

/// The bytes that an answer spends beside its hits: the legend, and the note three times, once
/// in a line of its own.
pub open spec fn reserved_bytes(note: Option<Seq<char>>) -> nat {
    encode_utf8(MODALITY_LEGEND@).len() + match note {
        Some(note) => encode_utf8(note).len() * 3 + 9,
        None => 0,
    }
}

/// The tokens that are left for the hits, at four bytes a token.
pub open spec fn budget_for_hits(max_output_tokens: usize, note: Option<Seq<char>>) -> int {
    let reserved = (reserved_bytes(note) + 3) / 4;
    if max_output_tokens <= reserved {
        0
    } else {
        max_output_tokens - reserved
    }
}

/// The text of an optional note.
pub open spec fn note_text(note: Option<&str>) -> Option<Seq<char>> {
    match note {
        Some(note) => Some(note@),
        None => None,
    }
}

/// The tokens that are left for the hits.
pub fn hits_budget(max_output_tokens: usize, note: Option<&str>) -> (budget: usize)
    ensures
        budget == budget_for_hits(max_output_tokens, note_text(note)),
{
    let legend: u128 = MODALITY_LEGEND.as_bytes().len() as u128;
    let noted: u128 = match note {
        Some(note) => note.as_bytes().len() as u128 * 3 + 9,
        None => 0,
    };
    let reserved: u128 = (legend + noted + 3) / 4;
    if max_output_tokens as u128 <= reserved {
        0
    } else {
        (max_output_tokens as u128 - reserved) as usize
    }
}

/// The line of a note under the hits.
pub open spec fn note_line(note: Option<Seq<char>>) -> Seq<char> {
    match note {
        Some(note) => "-- "@ + note + " --\n"@,
        None => Seq::empty(),
    }
}

/// The text of an answer with hits: the legend, the hits, and the note where there is one.
pub fn assemble_code_response(rendered: &str, note: Option<&str>) -> (text: String)
    ensures
        text@ == MODALITY_LEGEND@ + rendered@ + note_line(note_text(note)),
{
    let mut text: String = MODALITY_LEGEND.to_owned();
    text.append(rendered);
    if let Some(note) = note {
        let ghost before = text@;
        text.append("-- ");
        text.append(note);
        text.append(" --\n");
        proof {
            assert(text@ =~= before + note_line(note_text(Some(note))));
        }
    } else {
        proof {
            assert(text@ =~= text@ + note_line(None));
        }
    }
    text
}

proof fn lemma_encoding_of_a_concatenation(a: Seq<char>, b: Seq<char>)
    ensures
        encode_utf8(a + b) == encode_utf8(a) + encode_utf8(b),
    decreases a.len(),
{
    if a.len() == 0 {
        assert(a + b =~= b);
        assert(encode_utf8(a) =~= Seq::<u8>::empty());
        assert(encode_utf8(a) + encode_utf8(b) =~= encode_utf8(b));
    } else {
        assert((a + b).drop_first() =~= a.drop_first() + b);
        lemma_encoding_of_a_concatenation(a.drop_first(), b);
        assert(encode_scalar(a[0] as u32) + (encode_utf8(a.drop_first()) + encode_utf8(b)) =~= (
        encode_scalar(a[0] as u32) + encode_utf8(a.drop_first())) + encode_utf8(b));
    }
}

/// What is not hits is paid for: hits that keep to their budget, the legend, and the note in
/// all three of its places fit into the tokens of the whole answer, at four bytes a token,
/// however long the note is.
pub proof fn the_whole_answer_keeps_to_its_budget(
    max_output_tokens: usize,
    rendered: Seq<char>,
    note: Option<Seq<char>>,
)
    requires
        encode_utf8(rendered).len() <= 4 * budget_for_hits(max_output_tokens, note),
        budget_for_hits(max_output_tokens, note) > 0,
    ensures
        ({
            let text = MODALITY_LEGEND@ + rendered + note_line(note);
            let elsewhere = match note {
                Some(note) => 2 * encode_utf8(note).len(),
                None => 0,
            };
            encode_utf8(text).len() + elsewhere <= 4 * max_output_tokens
        }),
{
    let legend = MODALITY_LEGEND@;
    lemma_encoding_of_a_concatenation(legend, rendered);
    lemma_encoding_of_a_concatenation(legend + rendered, note_line(note));
    match note {
        Some(note) => {
            reveal_strlit("-- ");
            reveal_strlit(" --\n");
            lemma_encoding_of_a_concatenation("-- "@, note);
            lemma_encoding_of_a_concatenation("-- "@ + note, " --\n"@);
            vstd::utf8::is_ascii_chars_encode_utf8("-- "@);
            vstd::utf8::is_ascii_chars_encode_utf8(" --\n"@);
        },
        None => {
            assert(encode_utf8(note_line(note)) =~= Seq::<u8>::empty());
        },
    }
}

/// The lexical hits are carried on as they came, with their roots. Whatever else the lexical
/// modality answers is the end of the search, in its own words; an index that is missing is
/// spoken of as one that is being built.
pub proof fn the_lexical_answer_is_carried_on<H, F, R>(
    lexical: Result<CodeHits<H, R>, SearchFailure>,
    step: HybridStep<H, F, R>,
)
    requires
        call_ensures(hybrid_code_cancellable::<H, F, R>, (lexical,), step),
    ensures
        lexical matches Ok(CodeHits::Ready { hits, roots }) ==> (step
            matches HybridStep::CheckCancelled(ask) && ask.lexical@ == hits@ && ask.roots == roots),
        lexical matches Ok(CodeHits::Pending(text)) ==> (step
            matches HybridStep::Done(Ok(HybridAnswer::NotReady(said))) && said@ == text@),
        lexical matches Ok(CodeHits::Unavailable(_)) ==> (step
            matches HybridStep::Done(Ok(HybridAnswer::NotReady(said))) && said@
            == "Search index is being built, please try again in a moment."@),
        lexical matches Err(SearchFailure::Error(error)) ==> (step
            matches HybridStep::Done(Err(SearchFailure::Error(given))) && same_error(given, error)),
        lexical matches Err(SearchFailure::Cancelled) ==> step matches HybridStep::Done(
            Err(SearchFailure::Cancelled),
        ),
{
}

/// A request that still stands goes on with the very hits and roots it has, and one that was
/// withdrawn goes no further.
pub proof fn a_standing_request_goes_on<H, F, R>(
    ask: AwaitStanding<H, R>,
    cancelled: bool,
    step: HybridStep<H, F, R>,
)
    requires
        call_ensures(AwaitStanding::<H, R>::answer::<F>, (ask, cancelled), step),
    ensures
        !cancelled <==> step is Semantic,
        step matches HybridStep::Semantic(next) ==> next.lexical@ == ask.lexical@ && next.roots
            == ask.roots,
        cancelled ==> step matches HybridStep::Done(Err(SearchFailure::Cancelled)),
{
}

/// Unless the semantic modality fails, the hits are fused: the lexical ones are kept as they are,
/// found or not, the semantic ones are those that were found, and the note says why there are
/// none where the modality is missing.
pub proof fn the_semantic_answer_is_fused<H, F, R>(
    ask: AwaitSemanticHits<H, R>,
    semantic: Result<CodeHits<H, R>, SearchFailure>,
    step: HybridStep<H, F, R>,
)
    requires
        call_ensures(AwaitSemanticHits::<H, R>::answer::<F>, (ask, semantic), step),
    ensures
        step is Fuse <==> semantic is Ok,
        step matches HybridStep::Fuse(next) ==> {
            &&& next.lexical@ == ask.lexical@
            &&& next.roots == ask.roots
            &&& semantic->Ok_0 is Ready <==> next.note is None
            &&& !(semantic->Ok_0 is Ready) ==> next.semantic@.len() == 0
        },
        semantic matches Ok(CodeHits::Ready { hits, .. }) ==> step->Fuse_0.semantic@ == hits@,
        semantic matches Ok(CodeHits::Pending(text)) ==> (step->Fuse_0.note matches Some(
            Degradation::Pending(said),
        ) && said@ == text@),
        semantic matches Ok(CodeHits::Unavailable(reason)) ==> (step->Fuse_0.note matches Some(
            Degradation::Unavailable(said),
        ) && said@ == reason@),
        semantic matches Err(SearchFailure::Error(error)) ==> (step matches HybridStep::Done(
            Err(SearchFailure::Error(given)),
        ) && same_error(given, error)),
        semantic matches Err(SearchFailure::Cancelled) ==> step matches HybridStep::Done(
            Err(SearchFailure::Cancelled),
        ),
{
}

/// The answer is the first `limit` of the fused hits, in their order, with the roots and the note
/// that the search has gathered.
pub proof fn the_fused_hits_are_cut_at_the_limit<H, F, R>(
    ask: AwaitFused<H, R>,
    fused: Vec<F>,
    limit: usize,
    answer: HybridAnswer<F, R>,
)
    requires
        call_ensures(AwaitFused::<H, R>::answer::<F>, (ask, fused, limit), answer),
    ensures
        answer is NoHits <==> fused@.len() == 0 || limit == 0,
        answer is Hits <==> fused@.len() > 0 && limit > 0,
        answer matches HybridAnswer::Hits { hits, roots, note } ==> {
            &&& hits@.len() == if fused@.len() < limit { fused@.len() } else { limit as nat }
            &&& forall|i: int| 0 <= i < hits@.len() ==> hits@[i] == fused@[i]
            &&& roots == ask.roots
            &&& note is Some <==> ask.note is Some
            &&& note is Some ==> note->Some_0@ == ask.note->Some_0@
        },
        answer matches HybridAnswer::NoHits(note) ==> {
            &&& note is Some <==> ask.note is Some
            &&& note is Some ==> note->Some_0@ == ask.note->Some_0@
        },
{
}

/// A caller that cannot be cancelled gets the answer or the error as it is; only a cancellation
/// is an error of the server.
pub proof fn an_uncancellable_caller_gets_the_answer<A>(
    answer: Result<A, SearchFailure>,
    result: Result<A, McpError>,
)
    requires
        call_ensures(hybrid_code::<A>, (answer,), result),
    ensures
        answer is Ok <==> result is Ok,
        result is Ok ==> result->Ok_0 == answer->Ok_0,
        answer matches Err(SearchFailure::Error(error)) ==> result->Err_0 == error,
        answer matches Err(SearchFailure::Cancelled) ==> breaks(
            result->Err_0,
            "request cancelled"@,
        ),
{
}

/// Each modality is asked for the limit as many times over as is configured, at least once, and
/// for no more than can be counted.
pub proof fn each_modality_is_asked_for_enough(limit: usize, multiplier: usize, fetch: usize)
    requires
        call_ensures(hybrid_fetch, (limit, multiplier), fetch),
    ensures
        fetch >= limit,
        multiplier == 0 ==> fetch == limit,
        multiplier > 0 && limit * multiplier <= usize::MAX ==> fetch == limit * multiplier,
        multiplier > 0 && limit * multiplier > usize::MAX ==> fetch == usize::MAX,
{
}

/// The hits get every token that the legend and the note leave at four bytes a token, and none
/// beyond: with one token more the whole would not fit.
pub proof fn the_hits_get_every_token_that_is_left(
    max_output_tokens: usize,
    note: Option<&str>,
    budget: usize,
)
    requires
        call_ensures(hits_budget, (max_output_tokens, note), budget),
    ensures
        ({
            let beside = encode_utf8(MODALITY_LEGEND@).len() + match note {
                Some(note) => 3 * encode_utf8(note@).len() + 9,
                None => 0,
            };
            &&& budget > 0 ==> 4 * budget + beside <= 4 * max_output_tokens
            &&& 4 * (budget + 1) + beside > 4 * max_output_tokens
        }),
{
}

/// An answer is the legend, the hits as they were rendered, and below them the note in a line of
/// its own, where there is one.
pub proof fn an_answer_is_legend_hits_and_note(rendered: &str, note: Option<&str>, text: String)
    requires
        call_ensures(assemble_code_response, (rendered, note), text),
    ensures
        note is None ==> text@
            == "Modality tag per hit: [L] lexical-only · [S] semantic-only · [L+S] found by both (cross-modal agreement).\n"@
            + rendered@,
        note matches Some(note) ==> text@
            == "Modality tag per hit: [L] lexical-only · [S] semantic-only · [L+S] found by both (cross-modal agreement).\n"@
            + rendered@ + ("-- "@ + note@ + " --\n"@),
{
    if note is None {
        assert(MODALITY_LEGEND@ + rendered@ + Seq::<char>::empty() =~= MODALITY_LEGEND@
            + rendered@);
    }
}

} // verus!
