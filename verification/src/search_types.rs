//! What the modalities of a search hand to each other.

use crate::error::{breaks, same_error, ErrorView, McpError};
use vstd::prelude::*;

verus! {

/// Where the code of a workspace is searched.
#[derive(Debug, Clone, Copy, PartialEq, Eq, Structural)]
pub enum WorkspaceSearchMode {
    /// In a local index.
    SqliteLocal,
    /// In a shared baseline, with the local edits over it.
    PostgresRemoteOverlay,
}

/// What a search of code has to go by.
#[derive(Debug, Clone, Copy, PartialEq, Eq, Structural)]
pub struct SearchScope {
    pub mode: WorkspaceSearchMode,
    /// An external baseline is connected.
    pub external: bool,
}

impl SearchScope {
    /// The code is searched in the shared baseline alone.
    pub open spec fn remote(self) -> bool {
        self.mode == WorkspaceSearchMode::PostgresRemoteOverlay
    }

    /// Whether the code is searched in the shared baseline alone.
    pub fn is_remote(self) -> (remote: bool)
        ensures
            remote == self.remote(),
    {
        match self.mode {
            WorkspaceSearchMode::SqliteLocal => false,
            WorkspaceSearchMode::PostgresRemoteOverlay => true,
        }
    }
}

/// Why a search gave no answer.
#[derive(Debug, Clone, PartialEq, Eq)]
pub enum SearchFailure {
    Error(McpError),
    Cancelled,
}

/// Why the semantic modality has nothing to offer.
#[derive(Debug, Clone, PartialEq, Eq)]
pub enum SemanticUnavailable {
    RuntimeFailed,
    NotConfigured,
    IdentityMismatch(String),
    BaselineNotReady,
    BaselineRequired,
    EmbedderUnavailable(String),
}

/// What one modality found.
#[derive(Debug, Clone, PartialEq, Eq)]
pub enum CodeHits<H, R> {
    Ready { hits: Vec<H>, roots: Option<R> },
    /// Not yet; the text says why.
    Pending(String),
    Unavailable(SemanticUnavailable),
}

/// The reason, with its texts as sequences of characters.
pub enum UnavailableView {
    RuntimeFailed,
    NotConfigured,
    IdentityMismatch(Seq<char>),
    BaselineNotReady,
    BaselineRequired,
    EmbedderUnavailable(Seq<char>),
}

impl View for SemanticUnavailable {
    type V = UnavailableView;

    open spec fn view(&self) -> UnavailableView {
        match *self {
            SemanticUnavailable::RuntimeFailed => UnavailableView::RuntimeFailed,
            SemanticUnavailable::NotConfigured => UnavailableView::NotConfigured,
            SemanticUnavailable::IdentityMismatch(text) => UnavailableView::IdentityMismatch(text@),
            SemanticUnavailable::BaselineNotReady => UnavailableView::BaselineNotReady,
            SemanticUnavailable::BaselineRequired => UnavailableView::BaselineRequired,
            SemanticUnavailable::EmbedderUnavailable(text) => UnavailableView::EmbedderUnavailable(
                text@,
            ),
        }
    }
}

/// What one modality answers with, with its texts as sequences of characters.
pub enum HitsView<H, R> {
    Ready(Vec<H>, Option<R>),
    Pending(Seq<char>),
    Unavailable(UnavailableView),
    Failed(ErrorView),
    Cancelled,
}

/// What a modality answers with.
pub open spec fn hits_view<H, R>(result: Result<CodeHits<H, R>, SearchFailure>) -> HitsView<H, R> {
    match result {
        Ok(CodeHits::Ready { hits, roots }) => HitsView::Ready(hits, roots),
        Ok(CodeHits::Pending(text)) => HitsView::Pending(text@),
        Ok(CodeHits::Unavailable(reason)) => HitsView::Unavailable(reason@),
        Err(SearchFailure::Error(error)) => HitsView::Failed(error@),
        Err(SearchFailure::Cancelled) => HitsView::Cancelled,
    }
}

/// The text of an index that is not there yet.
pub open spec fn building_text() -> Seq<char> {
    "Search index is being built, please try again in a moment."@
}

/// The message of a search that the engine could not do.
pub open spec fn search_error_text(detail: Seq<char>) -> Seq<char> {
    "search error: "@ + detail
}

/// The failure of a search that the engine could not do.
pub fn search_error(detail: &str) -> (failure: SearchFailure)
    ensures
        failure matches SearchFailure::Error(error) && error.says(
            crate::error::INTERNAL_ERROR,
            search_error_text(detail@),
        ),
{
    let mut message: String = "search error: ".to_owned();
    message.append(detail);
    SearchFailure::Error(crate::error::internal_error(message))
}

/// The modality answers with these hits, under these roots.
pub open spec fn ends_ready<H, R>(
    end: Result<CodeHits<H, R>, SearchFailure>,
    found: Seq<H>,
    under: Option<R>,
) -> bool {
    end matches Ok(CodeHits::Ready { hits, roots }) && hits@ == found && roots == under
}

/// The modality is not ready, and says this.
pub open spec fn ends_pending<H, R>(
    end: Result<CodeHits<H, R>, SearchFailure>,
    text: Seq<char>,
) -> bool {
    end matches Ok(CodeHits::Pending(said)) && said@ == text
}

/// The modality has nothing to offer, for this reason.
pub open spec fn ends_unavailable<H, R>(
    end: Result<CodeHits<H, R>, SearchFailure>,
    reason: UnavailableView,
) -> bool {
    end matches Ok(CodeHits::Unavailable(given)) && given@ == reason
}

/// The modality fails with an error of the server that says this.
pub open spec fn ends_broken<H, R>(
    end: Result<CodeHits<H, R>, SearchFailure>,
    text: Seq<char>,
) -> bool {
    end matches Err(SearchFailure::Error(error)) && breaks(error, text)
}

/// The modality fails with this very error.
pub open spec fn ends_with<H, R>(
    end: Result<CodeHits<H, R>, SearchFailure>,
    error: McpError,
) -> bool {
    end matches Err(SearchFailure::Error(given)) && same_error(given, error)
}

/// The request was withdrawn.
pub open spec fn ends_cancelled<H, R>(end: Result<CodeHits<H, R>, SearchFailure>) -> bool {
    end matches Err(SearchFailure::Cancelled)
}

/// The shared baseline alone is searched exactly where the workspace is set up so, connected to
/// an external baseline or not.
pub proof fn the_mode_alone_says_where_code_is_searched(scope: SearchScope, remote: bool)
    requires
        call_ensures(SearchScope::is_remote, (scope,), remote),
    ensures
        remote <==> scope.mode is PostgresRemoteOverlay,
{
}

/// A search that the engine could not do is an error of the server that says why.
pub proof fn a_failed_search_says_why(detail: &str, failure: SearchFailure)
    requires
        call_ensures(search_error, (detail,), failure),
    ensures
        failure matches SearchFailure::Error(error) && breaks(error, "search error: "@ + detail@),
{
}

} // verus!
