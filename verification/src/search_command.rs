//! The requests of the search tool.

use crate::error::{internal_error, ErrorView, McpError, INTERNAL_ERROR};
use crate::loads::{nothing, reference_alone, Loads};
use crate::profile::McpProfile;
use crate::search_types::WorkspaceSearchMode;
use crate::state::ReferenceSearchLifecycle;
use vstd::prelude::*;

verus! {

/// The tokens of an answer where the request sets no bound.
pub const DEFAULT_OUTPUT_BUDGET_TOKENS: usize = 6000;

/// The hits of a search where the request sets no limit.
pub const DEFAULT_SEARCH_LIMIT: usize = 10;

/// The largest limit of a search.
pub const MAX_SEARCH_LIMIT: usize = 50;

/// The tokens of an answer.
pub open spec fn budget_of(max_output_tokens: Option<usize>) -> usize {
    match max_output_tokens {
        Some(tokens) => tokens,
        None => DEFAULT_OUTPUT_BUDGET_TOKENS,
    }
}

/// The tokens of an answer.
pub fn output_budget(max_output_tokens: Option<usize>) -> (tokens: usize)
    ensures
        tokens == budget_of(max_output_tokens),
{
    match max_output_tokens {
        Some(tokens) => tokens,
        None => DEFAULT_OUTPUT_BUDGET_TOKENS,
    }
}

/// The hits of a search.
pub open spec fn limit_of(limit: Option<usize>) -> usize {
    match limit {
        Some(limit) => if limit <= MAX_SEARCH_LIMIT {
            limit
        } else {
            MAX_SEARCH_LIMIT
        },
        None => DEFAULT_SEARCH_LIMIT,
    }
}

/// The hits of a search: never more than the largest limit.
pub fn search_limit(limit: Option<usize>) -> (hits: usize)
    ensures
        hits == limit_of(limit),
        hits <= MAX_SEARCH_LIMIT,
{
    match limit {
        Some(limit) => if limit <= MAX_SEARCH_LIMIT {
            limit
        } else {
            MAX_SEARCH_LIMIT
        },
        None => DEFAULT_SEARCH_LIMIT,
    }
}

/// A text that must not be empty.
pub fn non_empty_string(value: String) -> (result: Result<String, &'static str>)
    ensures
        value@.len() > 0 ==> result == Ok::<String, &'static str>(value),
        value@.len() == 0 ==> result is Err && result->Err_0@ == "must not be empty"@,
{
    if value.as_str().is_empty() {
        Err("must not be empty")
    } else {
        Ok(value)
    }
}

/// A query.
#[derive(Debug, Clone, PartialEq, Eq)]
pub struct SearchQueryParams {
    pub query: String,
    pub limit: Option<usize>,
    pub max_output_tokens: Option<usize>,
}

/// A listing of the platform.
#[derive(Debug, Clone, PartialEq, Eq)]
pub struct ListPlatformParams {
    pub kind: Option<String>,
    pub name: Option<String>,
    pub max_output_tokens: Option<usize>,
}

/// A request of the workspace profile.
#[derive(Debug, Clone, PartialEq, Eq)]
pub enum WorkspaceSearchParams {
    SearchCode(SearchQueryParams),
    Status,
    ListPlatform(ListPlatformParams),
    FindDocs(SearchQueryParams),
    SearchDocs(SearchQueryParams),
}

/// A request of the reference profile, which has no code to search.
#[derive(Debug, Clone, PartialEq, Eq)]
pub enum ReferenceSearchParams {
    FindDocs(SearchQueryParams),
    SearchDocs(SearchQueryParams),
    Status,
    ListPlatform(ListPlatformParams),
}

/// A request of either profile.
#[derive(Debug, Clone, PartialEq, Eq)]
pub enum SearchCommand {
    SearchCode(SearchQueryParams),
    Status,
    ListPlatform(ListPlatformParams),
    FindDocs { query: String, limit: Option<usize>, max_output_tokens: Option<usize> },
    SearchDocs { query: String, limit: Option<usize>, max_output_tokens: Option<usize> },
}

impl From<WorkspaceSearchParams> for SearchCommand {
    fn from(params: WorkspaceSearchParams) -> (command: Self) {
        match params {
            WorkspaceSearchParams::SearchCode(params) => SearchCommand::SearchCode(params),
            WorkspaceSearchParams::Status => SearchCommand::Status,
            WorkspaceSearchParams::ListPlatform(params) => SearchCommand::ListPlatform(params),
            WorkspaceSearchParams::FindDocs(params) => SearchCommand::FindDocs {
                query: params.query,
                limit: params.limit,
                max_output_tokens: params.max_output_tokens,
            },
            WorkspaceSearchParams::SearchDocs(params) => SearchCommand::SearchDocs {
                query: params.query,
                limit: params.limit,
                max_output_tokens: params.max_output_tokens,
            },
        }
    }
}

impl vstd::std_specs::convert::FromSpecImpl<WorkspaceSearchParams> for SearchCommand {
    open spec fn obeys_from_spec() -> bool {
        true
    }

    open spec fn from_spec(params: WorkspaceSearchParams) -> SearchCommand {
        match params {
            WorkspaceSearchParams::SearchCode(params) => SearchCommand::SearchCode(params),
            WorkspaceSearchParams::Status => SearchCommand::Status,
            WorkspaceSearchParams::ListPlatform(params) => SearchCommand::ListPlatform(params),
            WorkspaceSearchParams::FindDocs(params) => SearchCommand::FindDocs {
                query: params.query,
                limit: params.limit,
                max_output_tokens: params.max_output_tokens,
            },
            WorkspaceSearchParams::SearchDocs(params) => SearchCommand::SearchDocs {
                query: params.query,
                limit: params.limit,
                max_output_tokens: params.max_output_tokens,
            },
        }
    }
}

impl From<ReferenceSearchParams> for SearchCommand {
    fn from(params: ReferenceSearchParams) -> (command: Self) {
        match params {
            ReferenceSearchParams::FindDocs(params) => SearchCommand::FindDocs {
                query: params.query,
                limit: params.limit,
                max_output_tokens: params.max_output_tokens,
            },
            ReferenceSearchParams::SearchDocs(params) => SearchCommand::SearchDocs {
                query: params.query,
                limit: params.limit,
                max_output_tokens: params.max_output_tokens,
            },
            ReferenceSearchParams::Status => SearchCommand::Status,
            ReferenceSearchParams::ListPlatform(params) => SearchCommand::ListPlatform(params),
        }
    }
}

impl vstd::std_specs::convert::FromSpecImpl<ReferenceSearchParams> for SearchCommand {
    open spec fn obeys_from_spec() -> bool {
        true
    }

    open spec fn from_spec(params: ReferenceSearchParams) -> SearchCommand {
        match params {
            ReferenceSearchParams::FindDocs(params) => SearchCommand::FindDocs {
                query: params.query,
                limit: params.limit,
                max_output_tokens: params.max_output_tokens,
            },
            ReferenceSearchParams::SearchDocs(params) => SearchCommand::SearchDocs {
                query: params.query,
                limit: params.limit,
                max_output_tokens: params.max_output_tokens,
            },
            ReferenceSearchParams::Status => SearchCommand::Status,
            ReferenceSearchParams::ListPlatform(params) => SearchCommand::ListPlatform(params),
        }
    }
}

/// A reference profile is never asked to search code.
pub proof fn the_reference_profile_searches_no_code(params: ReferenceSearchParams)
    ensures
        !(<SearchCommand as vstd::std_specs::convert::FromSpec<ReferenceSearchParams>>::from_spec(
            params,
        ) is SearchCode),
{
}

/// A search of the documentation.
#[derive(Debug, Clone, PartialEq, Eq)]
pub struct DocsRequest {
    /// By meaning, or else by words.
    pub semantic: bool,
    pub query: String,
    pub limit: usize,
    pub max_output_tokens: usize,
}

/// What a search request does.
#[derive(Debug, Clone, PartialEq, Eq)]
pub enum SearchPlan {
    Status,
    /// The shared baseline is still being opened; ask again.
    BaselineWarming,
    /// Ask for fresh overlay data, then search.
    SearchCode { query: String, limit: usize, max_output_tokens: usize },
    ListPlatform { kind: Option<String>, name: Option<String>, max_output_tokens: usize },
    Docs(DocsRequest),
}

/// The action that an answer of a documentation search names.
pub fn docs_action(semantic: bool) -> (action: &'static str)
    ensures
        action@ == if semantic {
            "search_docs"@
        } else {
            "find_docs"@
        },
{
    if semantic {
        "search_docs"
    } else {
        "find_docs"
    }
}

/// The error of a reference search that could not be set up.
pub open spec fn initialization_error(message: Seq<char>, reason_code: Seq<char>) -> ErrorView {
    ErrorView {
        code: INTERNAL_ERROR,
        message: "reference search initialization failed: "@ + message,
        reason_code: Some(reason_code),
    }
}

/// The plan of a documentation search.
pub open spec fn docs_planned(
    result: Result<SearchPlan, McpError>,
    lifecycle: ReferenceSearchLifecycle,
    request: DocsRequest,
) -> bool {
    match lifecycle {
        ReferenceSearchLifecycle::Failed { message, reason_code } => result matches Err(error)
            && error@ == initialization_error(message@, reason_code@),
        _ => result == Ok::<SearchPlan, McpError>(SearchPlan::Docs(request)),
    }
}

fn plan_docs(lifecycle: ReferenceSearchLifecycle, request: DocsRequest) -> (result: Result<
    SearchPlan,
    McpError,
>)
    ensures
        docs_planned(result, lifecycle, request),
{
    match lifecycle {
        ReferenceSearchLifecycle::Failed { message, reason_code } => {
            let mut text: String = "reference search initialization failed: ".to_owned();
            text.append(message.as_str());
            let mut error: McpError = internal_error(text);
            error.reason_code = Some(reason_code);
            Err(error)
        },
        _ => Ok(SearchPlan::Docs(request)),
    }
}

/// A listing of the platform, with its bound.
pub open spec fn listing(params: ListPlatformParams) -> SearchPlan {
    SearchPlan::ListPlatform {
        kind: params.kind,
        name: params.name,
        max_output_tokens: budget_of(params.max_output_tokens),
    }
}

/// Plans a search request of the workspace profile. `baseline_pending` says whether the shared
/// baseline is still being opened; `lifecycle` is where the reference search is once it was
/// asked to load.
pub fn workspace_search(
    command: SearchCommand,
    mode: WorkspaceSearchMode,
    baseline_pending: bool,
    lifecycle: ReferenceSearchLifecycle,
) -> (result: Result<SearchPlan, McpError>)
    ensures
        match command {
            SearchCommand::Status => result == Ok::<SearchPlan, McpError>(SearchPlan::Status),
            SearchCommand::SearchCode(params) => if mode
                == WorkspaceSearchMode::PostgresRemoteOverlay && baseline_pending {
                result == Ok::<SearchPlan, McpError>(SearchPlan::BaselineWarming)
            } else {
                result == Ok::<SearchPlan, McpError>(
                    SearchPlan::SearchCode {
                        query: params.query,
                        limit: limit_of(params.limit),
                        max_output_tokens: budget_of(params.max_output_tokens),
                    },
                )
            },
            SearchCommand::ListPlatform(params) => result == Ok::<SearchPlan, McpError>(
                listing(params),
            ),
            SearchCommand::FindDocs { query, limit, max_output_tokens } => docs_planned(
                result,
                lifecycle,
                DocsRequest {
                    semantic: false,
                    query,
                    limit: limit_of(limit),
                    max_output_tokens: budget_of(max_output_tokens),
                },
            ),
            SearchCommand::SearchDocs { query, limit, max_output_tokens } => docs_planned(
                result,
                lifecycle,
                DocsRequest {
                    semantic: true,
                    query,
                    limit: limit_of(limit),
                    max_output_tokens: budget_of(max_output_tokens),
                },
            ),
        },
{
    match command {
        SearchCommand::SearchCode(params) => {
            let warming: bool = match mode {
                WorkspaceSearchMode::PostgresRemoteOverlay => baseline_pending,
                WorkspaceSearchMode::SqliteLocal => false,
            };
            if warming {
                Ok(SearchPlan::BaselineWarming)
            } else {
                Ok(
                    SearchPlan::SearchCode {
                        query: params.query,
                        limit: search_limit(params.limit),
                        max_output_tokens: output_budget(params.max_output_tokens),
                    },
                )
            }
        },
        command => plan_shared(command, lifecycle),
    }
}

/// Plans a search request of the reference profile, whose requests never search code.
pub fn reference_search(command: SearchCommand, lifecycle: ReferenceSearchLifecycle) -> (result:
    Result<SearchPlan, McpError>)
    requires
        !(command is SearchCode),
    ensures
        match command {
            SearchCommand::Status => result == Ok::<SearchPlan, McpError>(SearchPlan::Status),
            SearchCommand::SearchCode(_) => true,
            SearchCommand::ListPlatform(params) => result == Ok::<SearchPlan, McpError>(
                listing(params),
            ),
            SearchCommand::FindDocs { query, limit, max_output_tokens } => docs_planned(
                result,
                lifecycle,
                DocsRequest {
                    semantic: false,
                    query,
                    limit: limit_of(limit),
                    max_output_tokens: budget_of(max_output_tokens),
                },
            ),
            SearchCommand::SearchDocs { query, limit, max_output_tokens } => docs_planned(
                result,
                lifecycle,
                DocsRequest {
                    semantic: true,
                    query,
                    limit: limit_of(limit),
                    max_output_tokens: budget_of(max_output_tokens),
                },
            ),
        },
{
    plan_shared(command, lifecycle)
}

fn plan_shared(command: SearchCommand, lifecycle: ReferenceSearchLifecycle) -> (result: Result<
    SearchPlan,
    McpError,
>)
    requires
        !(command is SearchCode),
    ensures
        match command {
            SearchCommand::Status => result == Ok::<SearchPlan, McpError>(SearchPlan::Status),
            SearchCommand::SearchCode(_) => true,
            SearchCommand::ListPlatform(params) => result == Ok::<SearchPlan, McpError>(
                listing(params),
            ),
            SearchCommand::FindDocs { query, limit, max_output_tokens } => docs_planned(
                result,
                lifecycle,
                DocsRequest {
                    semantic: false,
                    query,
                    limit: limit_of(limit),
                    max_output_tokens: budget_of(max_output_tokens),
                },
            ),
            SearchCommand::SearchDocs { query, limit, max_output_tokens } => docs_planned(
                result,
                lifecycle,
                DocsRequest {
                    semantic: true,
                    query,
                    limit: limit_of(limit),
                    max_output_tokens: budget_of(max_output_tokens),
                },
            ),
        },
{
    match command {
        SearchCommand::Status => Ok(SearchPlan::Status),
        SearchCommand::SearchCode(_) => vstd::pervasive::unreached(),
        SearchCommand::ListPlatform(params) => Ok(
            SearchPlan::ListPlatform {
                kind: params.kind,
                name: params.name,
                max_output_tokens: output_budget(params.max_output_tokens),
            },
        ),
        SearchCommand::FindDocs { query, limit, max_output_tokens } => plan_docs(
            lifecycle,
            DocsRequest {
                semantic: false,
                query,
                limit: search_limit(limit),
                max_output_tokens: output_budget(max_output_tokens),
            },
        ),
        SearchCommand::SearchDocs { query, limit, max_output_tokens } => plan_docs(
            lifecycle,
            DocsRequest {
                semantic: true,
                query,
                limit: search_limit(limit),
                max_output_tokens: output_budget(max_output_tokens),
            },
        ),
    }
}

/// The builds that a search request starts: in the workspace profile the reference beside the
/// workspace is built once its documentation is searched; the reference profile has its own from
/// the start.
pub fn search_loads(profile: McpProfile, command: &SearchCommand) -> (loads: Loads)
    ensures
        loads == if profile == McpProfile::Workspace && (command is FindDocs || command
            is SearchDocs) {
            reference_alone()
        } else {
            nothing()
        },
{
    let documentation: bool = match command {
        SearchCommand::FindDocs { .. } => true,
        SearchCommand::SearchDocs { .. } => true,
        _ => false,
    };
    let workspace: bool = match profile {
        McpProfile::Workspace => true,
        McpProfile::Reference => false,
    };
    Loads { graph: false, resident: false, reference: workspace && documentation }
}

/// The plan of a documentation search keeps the query, searches by meaning exactly where it was
/// asked to, and bounds its hits and its tokens as every search does.
pub open spec fn plans_docs(
    plan: SearchPlan,
    by_meaning: bool,
    asked: String,
    limit_asked: Option<usize>,
    tokens_asked: Option<usize>,
) -> bool {
    plan matches SearchPlan::Docs(request) && {
        &&& request.semantic == by_meaning
        &&& request.query == asked
        &&& limit_asked matches Some(limit) ==> request.limit == if limit < 50 { limit } else { 50 }
        &&& limit_asked is None ==> request.limit == 10
        &&& tokens_asked matches Some(tokens) ==> request.max_output_tokens == tokens
        &&& tokens_asked is None ==> request.max_output_tokens == 6000
    }
}

/// A reference search that could not be set up is an error of the server that says why, with its
/// reason code.
pub open spec fn says_why_it_failed(error: McpError, message: Seq<char>, reason: Seq<char>) -> bool {
    &&& error.code == -32603
    &&& error.message@ == "reference search initialization failed: "@ + message
    &&& error.reason_code matches Some(code) && code@ == reason
}

/// A request takes the tokens and the hits that it asks for, no more than fifty hits, and 6000
/// tokens and ten hits where it asks for none.
pub proof fn a_search_is_bounded_as_it_asks(
    tokens_asked: Option<usize>,
    tokens: usize,
    hits_asked: Option<usize>,
    hits: usize,
)
    requires
        call_ensures(output_budget, (tokens_asked,), tokens),
        call_ensures(search_limit, (hits_asked,), hits),
    ensures
        tokens_asked matches Some(asked) ==> tokens == asked,
        tokens_asked is None ==> tokens == 6000,
        hits_asked matches Some(asked) ==> hits == if asked < 50 { asked } else { 50 },
        hits_asked is None ==> hits == 10,
{
}

/// A text is accepted as it is exactly where it is not empty.
pub proof fn only_an_empty_text_is_refused(value: String, result: Result<String, &'static str>)
    requires
        call_ensures(non_empty_string, (value,), result),
    ensures
        result is Ok <==> value@.len() > 0,
        result matches Ok(accepted) ==> accepted == value,
        result matches Err(reason) ==> reason@ == "must not be empty"@,
{
}

/// A request of the workspace profile is planned as what it asks for. Code is searched with the
/// query and the bounds of the request, unless the workspace lives on a shared baseline that is
/// still being opened; a listing and a search of the documentation keep what they say too, and only
/// a reference search that failed to be set up stands in the way of the latter.
pub proof fn a_workspace_search_does_what_it_is_asked(
    command: SearchCommand,
    mode: WorkspaceSearchMode,
    baseline_pending: bool,
    lifecycle: ReferenceSearchLifecycle,
    result: Result<SearchPlan, McpError>,
)
    requires
        call_ensures(workspace_search, (command, mode, baseline_pending, lifecycle), result),
    ensures
        result is Err <==> lifecycle is Failed && (command is FindDocs || command is SearchDocs),
        result matches Err(error) ==> (lifecycle matches ReferenceSearchLifecycle::Failed {
            message,
            reason_code,
        } && says_why_it_failed(error, message@, reason_code@)),
        result matches Ok(plan) ==> {
            &&& plan is Status <==> command is Status
            &&& plan is BaselineWarming <==> command is SearchCode && baseline_pending && mode
                is PostgresRemoteOverlay
            &&& plan is SearchCode <==> command is SearchCode && !(baseline_pending && mode
                is PostgresRemoteOverlay)
            &&& plan is ListPlatform <==> command is ListPlatform
            &&& plan matches SearchPlan::SearchCode { query, limit, max_output_tokens } ==> (command
                matches SearchCommand::SearchCode(asked) && {
                &&& query == asked.query
                &&& asked.limit matches Some(hits) ==> limit == if hits < 50 { hits } else { 50 }
                &&& asked.limit is None ==> limit == 10
                &&& asked.max_output_tokens matches Some(tokens) ==> max_output_tokens == tokens
                &&& asked.max_output_tokens is None ==> max_output_tokens == 6000
            })
            &&& plan matches SearchPlan::ListPlatform { kind, name, max_output_tokens } ==> (command
                matches SearchCommand::ListPlatform(asked) && {
                &&& kind == asked.kind
                &&& name == asked.name
                &&& asked.max_output_tokens matches Some(tokens) ==> max_output_tokens == tokens
                &&& asked.max_output_tokens is None ==> max_output_tokens == 6000
            })
            &&& command matches SearchCommand::FindDocs { query, limit, max_output_tokens }
                ==> plans_docs(plan, false, query, limit, max_output_tokens)
            &&& command matches SearchCommand::SearchDocs { query, limit, max_output_tokens }
                ==> plans_docs(plan, true, query, limit, max_output_tokens)
        },
{
}

/// A request of the reference profile is planned by the same rules: its status, its listing and its
/// documentation, which only a reference search that failed to be set up stands in the way of.
pub proof fn a_reference_search_does_what_it_is_asked(
    command: SearchCommand,
    lifecycle: ReferenceSearchLifecycle,
    result: Result<SearchPlan, McpError>,
)
    requires
        !(command is SearchCode),
        call_ensures(reference_search, (command, lifecycle), result),
    ensures
        result is Err <==> lifecycle is Failed && (command is FindDocs || command is SearchDocs),
        result matches Err(error) ==> (lifecycle matches ReferenceSearchLifecycle::Failed {
            message,
            reason_code,
        } && says_why_it_failed(error, message@, reason_code@)),
        result matches Ok(plan) ==> {
            &&& plan is Status <==> command is Status
            &&& plan is ListPlatform <==> command is ListPlatform
            &&& plan matches SearchPlan::ListPlatform { kind, name, max_output_tokens } ==> (command
                matches SearchCommand::ListPlatform(asked) && {
                &&& kind == asked.kind
                &&& name == asked.name
                &&& asked.max_output_tokens matches Some(tokens) ==> max_output_tokens == tokens
                &&& asked.max_output_tokens is None ==> max_output_tokens == 6000
            })
            &&& command matches SearchCommand::FindDocs { query, limit, max_output_tokens }
                ==> plans_docs(plan, false, query, limit, max_output_tokens)
            &&& command matches SearchCommand::SearchDocs { query, limit, max_output_tokens }
                ==> plans_docs(plan, true, query, limit, max_output_tokens)
        },
{
}

/// Both profiles make the same command of the same request, and lose nothing of it.
pub proof fn a_request_is_the_same_command_in_both_profiles(
    workspace: WorkspaceSearchParams,
    reference: ReferenceSearchParams,
)
    ensures
        ({
            let command = <SearchCommand as vstd::std_specs::convert::FromSpec<
                WorkspaceSearchParams,
            >>::from_spec(workspace);
            &&& command is Status <==> workspace is Status
            &&& workspace matches WorkspaceSearchParams::SearchCode(params) ==> command
                == SearchCommand::SearchCode(params)
            &&& workspace matches WorkspaceSearchParams::ListPlatform(params) ==> command
                == SearchCommand::ListPlatform(params)
            &&& workspace matches WorkspaceSearchParams::FindDocs(params) ==> (command
                matches SearchCommand::FindDocs { query, limit, max_output_tokens } && query
                == params.query && limit == params.limit && max_output_tokens
                == params.max_output_tokens)
            &&& workspace matches WorkspaceSearchParams::SearchDocs(params) ==> (command
                matches SearchCommand::SearchDocs { query, limit, max_output_tokens } && query
                == params.query && limit == params.limit && max_output_tokens
                == params.max_output_tokens)
        }),
        ({
            let command = <SearchCommand as vstd::std_specs::convert::FromSpec<
                ReferenceSearchParams,
            >>::from_spec(reference);
            &&& command is Status <==> reference is Status
            &&& reference matches ReferenceSearchParams::ListPlatform(params) ==> command
                == SearchCommand::ListPlatform(params)
            &&& reference matches ReferenceSearchParams::FindDocs(params) ==> (command
                matches SearchCommand::FindDocs { query, limit, max_output_tokens } && query
                == params.query && limit == params.limit && max_output_tokens
                == params.max_output_tokens)
            &&& reference matches ReferenceSearchParams::SearchDocs(params) ==> (command
                matches SearchCommand::SearchDocs { query, limit, max_output_tokens } && query
                == params.query && limit == params.limit && max_output_tokens
                == params.max_output_tokens)
        }),
{
}

/// A search of the documentation starts the reference beside a workspace, and nothing else does.
/// Its answer names it by how it searched.
pub proof fn documentation_starts_the_reference(
    profile: McpProfile,
    command: SearchCommand,
    loads: Loads,
    semantic: bool,
    action: &'static str,
)
    requires
        call_ensures(search_loads, (profile, &command), loads),
        call_ensures(docs_action, (semantic,), action),
    ensures
        loads.reference <==> profile is Workspace && (command is FindDocs || command is SearchDocs),
        !loads.graph && !loads.resident,
        semantic ==> action@ == "search_docs"@,
        !semantic ==> action@ == "find_docs"@,
{
}

} // verus!
