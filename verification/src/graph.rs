//! Requests of the call graph.

use crate::error::{
    breaks, internal_error, invalid_params, missing_field, plain_error, refused, refuses, require,
    ErrorView, McpError, INTERNAL_ERROR, INVALID_PARAMS,
};
use crate::loads::{graph_alone, nothing, Loads};
use crate::providers::GraphStatus;
use crate::text::same_text;
use vstd::prelude::*;

verus! {

/// The most connected modules of an overview, where the request sets no bound.
pub const DEFAULT_OVERVIEW_TOP: usize = 20;

/// The tokens of the sources, where the request sets no bound.
pub const DEFAULT_SOURCE_BUDGET_TOKENS: usize = 4000;

/// The tokens of an answer about nodes, where the request sets no bound.
pub const DEFAULT_BODY_BUDGET_TOKENS: usize = 6000;

/// How far neighbours are followed, where the request does not say.
pub const DEFAULT_DEPTH: usize = 1;

/// How many neighbours are given, where the request sets no bound.
pub const DEFAULT_MAX_NODES: usize = 50;

/// A request to the call graph.
#[derive(Debug, Clone, PartialEq, Eq)]
pub struct GraphParams {
    pub action: String,
    pub id: Option<String>,
    pub query: Option<String>,
    pub ids: Vec<String>,
    pub max_output_tokens: Option<usize>,
    pub detail: Option<String>,
    pub dir: Option<String>,
    pub depth: Option<usize>,
    pub max_nodes: Option<usize>,
    pub provenance: Vec<String>,
    pub edge_kinds: Vec<String>,
    pub top: Option<usize>,
    pub call_sites: Option<bool>,
    pub max_call_sites: Option<usize>,
}

/// Which way neighbours are followed.
#[derive(Debug, Clone, PartialEq, Eq)]
pub enum DirectionChoice {
    In,
    Out,
    /// As the request says; the text is still to be understood.
    Named(Option<String>),
}

/// A question to a snapshot of the graph.
#[derive(Debug, Clone, PartialEq, Eq)]
pub enum GraphQuery {
    Overview { top: usize },
    Node { id: String, detail: Option<String>, max_output_tokens: usize },
    Source { ids: Vec<String>, max_output_tokens: usize },
    Neighbors {
        id: String,
        direction: DirectionChoice,
        detail: Option<String>,
        depth: usize,
        max_nodes: usize,
        provenance: Vec<String>,
        edge_kinds: Vec<String>,
        call_sites: bool,
        max_call_sites: Option<usize>,
        max_output_tokens: usize,
    },
    /// The contract of the tool knows no such action.
    UnknownAction(String),
}

/// What is asked of the graph.
#[derive(Debug, Clone, Copy, PartialEq, Eq, Structural)]
pub enum GraphAction {
    Schema,
    Status,
    Resolve,
    Overview,
    Node,
    Source,
    Neighbors,
    Callers,
    Callees,
    Unknown,
}

/// The action that a text names.
pub open spec fn graph_action_of(action: Seq<char>) -> GraphAction {
    if action == "schema"@ {
        GraphAction::Schema
    } else if action == "status"@ {
        GraphAction::Status
    } else if action == "resolve"@ {
        GraphAction::Resolve
    } else if action == "overview"@ {
        GraphAction::Overview
    } else if action == "node"@ {
        GraphAction::Node
    } else if action == "source"@ {
        GraphAction::Source
    } else if action == "neighbors"@ {
        GraphAction::Neighbors
    } else if action == "callers"@ {
        GraphAction::Callers
    } else if action == "callees"@ {
        GraphAction::Callees
    } else {
        GraphAction::Unknown
    }
}

/// The action that a text names.
pub fn graph_action(action: &str) -> (named: GraphAction)
    ensures
        named == graph_action_of(action@),
{
    if same_text(action, "schema") {
        GraphAction::Schema
    } else if same_text(action, "status") {
        GraphAction::Status
    } else if same_text(action, "resolve") {
        GraphAction::Resolve
    } else if same_text(action, "overview") {
        GraphAction::Overview
    } else if same_text(action, "node") {
        GraphAction::Node
    } else if same_text(action, "source") {
        GraphAction::Source
    } else if same_text(action, "neighbors") {
        GraphAction::Neighbors
    } else if same_text(action, "callers") {
        GraphAction::Callers
    } else if same_text(action, "callees") {
        GraphAction::Callees
    } else {
        GraphAction::Unknown
    }
}

/// What a request to the graph does next.
#[derive(Debug, Clone, PartialEq, Eq)]
pub enum GraphStep {
    Schema,
    /// Report the status.
    Status,
    /// Resolve names; this works without the graph too.
    Resolve { query: String, limit: usize },
    /// Read whether the graph was superseded, and its status.
    ReadStatus(AwaitGraphStatus),
    /// Take a snapshot.
    TakeSnapshot(AwaitGraphSnapshot),
    /// Ask the snapshot.
    Query(GraphQuery),
    /// The graph is still being built; the text is a hint, where there is one.
    Loading(Option<String>),
    /// Another process took the workspace over.
    Superseded,
    Refused(McpError),
}

#[derive(Debug, Clone, PartialEq, Eq)]
pub struct AwaitGraphStatus {
    pub params: GraphParams,
}

#[derive(Debug, Clone, PartialEq, Eq)]
pub struct AwaitGraphSnapshot {
    pub params: GraphParams,
}

/// The step refuses the request with this error.
pub open spec fn step_refuses(step: GraphStep, error: ErrorView) -> bool {
    step matches GraphStep::Refused(given) && given@ == error
}

/// The builds that a request to the graph starts: all but the schema need the graph, also where
/// the request is refused or cannot wait for it. The names are looked up in the resident
/// workspace too.
pub open spec fn graph_builds(action: GraphAction, has_query: bool) -> Loads {
    match action {
        GraphAction::Schema => nothing(),
        GraphAction::Resolve => Loads { graph: true, resident: has_query, reference: false },
        _ => graph_alone(),
    }
}

/// The builds that a request to the graph starts, before anything is read of them.
pub fn graph_loads(p: &GraphParams) -> (loads: Loads)
    ensures
        loads == graph_builds(graph_action_of(p.action@), p.query is Some),
{
    match graph_action(p.action.as_str()) {
        GraphAction::Schema => Loads { graph: false, resident: false, reference: false },
        GraphAction::Resolve => Loads {
            graph: true,
            resident: p.query.is_some(),
            reference: false,
        },
        _ => Loads { graph: true, resident: false, reference: false },
    }
}

/// The first step of a request to the graph.
pub open spec fn graph_started(
    p: GraphParams,
    default_resolve_limit: usize,
    step: GraphStep,
) -> bool {
    match graph_action_of(p.action@) {
        GraphAction::Schema => step == GraphStep::Schema,
        GraphAction::Status => step == GraphStep::Status,
        GraphAction::Resolve => match p.query {
            Some(query) => step == (GraphStep::Resolve {
                query,
                limit: match p.top {
                    Some(top) => top,
                    None => default_resolve_limit,
                },
            }),
            None => step_refuses(
                step,
                plain_error(INVALID_PARAMS, missing_field("query"@, "resolve"@)),
            ),
        },
        _ => step == GraphStep::ReadStatus(AwaitGraphStatus { params: p }),
    }
}

/// Starts a request to the graph.
pub fn graph(p: GraphParams, default_resolve_limit: usize) -> (step: GraphStep)
    ensures
        graph_started(p, default_resolve_limit, step),
{
    match graph_action(p.action.as_str()) {
        GraphAction::Schema => GraphStep::Schema,
        GraphAction::Status => GraphStep::Status,
        GraphAction::Resolve => {
            let limit: usize = match p.top {
                Some(top) => top,
                None => default_resolve_limit,
            };
            match require(p.query, "query", "resolve") {
                Ok(query) => GraphStep::Resolve { query, limit },
                Err(error) => GraphStep::Refused(error),
            }
        },
        _ => GraphStep::ReadStatus(AwaitGraphStatus { params: p }),
    }
}

/// The hint of a graph that is still being built.
pub open spec fn indexing_hint() -> Seq<char> {
    "call graph is still indexing; retry shortly"@
}

impl AwaitGraphStatus {
    /// Only a graph that is ready is asked. One whose workspace was taken over says so, whatever
    /// its status is.
    pub fn answer(self, superseded: bool, status: GraphStatus) -> (step: GraphStep)
        ensures
            superseded ==> step == GraphStep::Superseded,
            !superseded ==> match status {
                GraphStatus::Disabled => step_refuses(
                    step,
                    plain_error(
                        INVALID_PARAMS,
                        "graph is only available in the workspace profile"@,
                    ),
                ),
                GraphStatus::Idle => step matches GraphStep::Loading(Some(hint)) && hint@
                    == indexing_hint(),
                GraphStatus::Loading => step matches GraphStep::Loading(Some(hint)) && hint@
                    == indexing_hint(),
                GraphStatus::Failed(message) => step_refuses(
                    step,
                    plain_error(INTERNAL_ERROR, "graph load failed: "@ + message@),
                ),
                GraphStatus::Ready => step == GraphStep::TakeSnapshot(
                    AwaitGraphSnapshot { params: self.params },
                ),
            },
    {
        if superseded {
            return GraphStep::Superseded;
        }
        match status {
            GraphStatus::Disabled => GraphStep::Refused(
                invalid_params("graph is only available in the workspace profile".to_owned()),
            ),
            GraphStatus::Idle => GraphStep::Loading(
                Some("call graph is still indexing; retry shortly".to_owned()),
            ),
            GraphStatus::Loading => GraphStep::Loading(
                Some("call graph is still indexing; retry shortly".to_owned()),
            ),
            GraphStatus::Failed(message) => {
                let mut text: String = "graph load failed: ".to_owned();
                text.append(message.as_str());
                GraphStep::Refused(internal_error(text))
            },
            GraphStatus::Ready => GraphStep::TakeSnapshot(
                AwaitGraphSnapshot { params: self.params },
            ),
        }
    }
}

/// The way that an action follows.
pub open spec fn direction_of(action: GraphAction, dir: Option<String>) -> DirectionChoice {
    match action {
        GraphAction::Callers => DirectionChoice::In,
        GraphAction::Callees => DirectionChoice::Out,
        _ => DirectionChoice::Named(dir),
    }
}

/// The value, or its default.
pub open spec fn or_default(value: Option<usize>, default: usize) -> usize {
    match value {
        Some(value) => value,
        None => default,
    }
}

fn value_or(value: Option<usize>, default: usize) -> (chosen: usize)
    ensures
        chosen == or_default(value, default),
{
    match value {
        Some(value) => value,
        None => default,
    }
}

/// The text of a request for sources that names none.
pub open spec fn no_sources_text() -> Seq<char> {
    "'ids' is required (non-empty) for action 'source'"@
}

/// The tokens that an answer about nodes may take, with their sources or without.
pub fn body_budget(max_output_tokens: Option<usize>) -> (budget: usize)
    ensures
        budget == or_default(max_output_tokens, DEFAULT_BODY_BUDGET_TOKENS),
{
    value_or(max_output_tokens, DEFAULT_BODY_BUDGET_TOKENS)
}

/// The question that a request puts to a snapshot.
pub open spec fn graph_asked(p: GraphParams, result: Result<GraphQuery, McpError>) -> bool {
    let action = graph_action_of(p.action@);
    match action {
        GraphAction::Overview => result == Ok::<GraphQuery, McpError>(
            GraphQuery::Overview { top: or_default(p.top, DEFAULT_OVERVIEW_TOP) },
        ),
        GraphAction::Node => match p.id {
            Some(id) => result == Ok::<GraphQuery, McpError>(
                GraphQuery::Node {
                    id,
                    detail: p.detail,
                    max_output_tokens: or_default(
                        p.max_output_tokens,
                        DEFAULT_BODY_BUDGET_TOKENS,
                    ),
                },
            ),
            None => refused(result, missing_field("id"@, "node"@)),
        },
        GraphAction::Source => if p.ids@.len() == 0 {
            refused(result, no_sources_text())
        } else {
            result == Ok::<GraphQuery, McpError>(
                GraphQuery::Source {
                    ids: p.ids,
                    max_output_tokens: or_default(
                        p.max_output_tokens,
                        DEFAULT_SOURCE_BUDGET_TOKENS,
                    ),
                },
            )
        },
        GraphAction::Neighbors | GraphAction::Callers | GraphAction::Callees => match p.id {
            Some(id) => result == Ok::<GraphQuery, McpError>(
                GraphQuery::Neighbors {
                    id,
                    direction: direction_of(action, p.dir),
                    detail: p.detail,
                    depth: or_default(p.depth, DEFAULT_DEPTH),
                    max_nodes: or_default(p.max_nodes, DEFAULT_MAX_NODES),
                    provenance: p.provenance,
                    edge_kinds: p.edge_kinds,
                    call_sites: p.call_sites == Some(true),
                    max_call_sites: p.max_call_sites,
                    max_output_tokens: or_default(
                        p.max_output_tokens,
                        DEFAULT_BODY_BUDGET_TOKENS,
                    ),
                },
            ),
            None => refused(result, missing_field("id"@, p.action@)),
        },
        _ => result == Ok::<GraphQuery, McpError>(GraphQuery::UnknownAction(p.action)),
    }
}

/// The question that a request puts to a snapshot.
pub fn graph_query(p: GraphParams) -> (result: Result<GraphQuery, McpError>)
    ensures
        graph_asked(p, result),
{
    let action: GraphAction = graph_action(p.action.as_str());
    match action {
        GraphAction::Overview => Ok(
            GraphQuery::Overview { top: value_or(p.top, DEFAULT_OVERVIEW_TOP) },
        ),
        GraphAction::Node => match require(p.id, "id", "node") {
            Ok(id) => Ok(
                GraphQuery::Node {
                    id,
                    detail: p.detail,
                    max_output_tokens: body_budget(p.max_output_tokens),
                },
            ),
            Err(error) => Err(error),
        },
        GraphAction::Source => if p.ids.len() == 0 {
            Err(invalid_params("'ids' is required (non-empty) for action 'source'".to_owned()))
        } else {
            Ok(
                GraphQuery::Source {
                    ids: p.ids,
                    max_output_tokens: value_or(
                        p.max_output_tokens,
                        DEFAULT_SOURCE_BUDGET_TOKENS,
                    ),
                },
            )
        },
        GraphAction::Neighbors | GraphAction::Callers | GraphAction::Callees => {
            let direction: DirectionChoice = match action {
                GraphAction::Callers => DirectionChoice::In,
                GraphAction::Callees => DirectionChoice::Out,
                _ => DirectionChoice::Named(p.dir),
            };
            let call_sites: bool = match p.call_sites {
                Some(call_sites) => call_sites,
                None => false,
            };
            match require(p.id, "id", p.action.as_str()) {
                Ok(id) => Ok(
                    GraphQuery::Neighbors {
                        id,
                        direction,
                        detail: p.detail,
                        depth: value_or(p.depth, DEFAULT_DEPTH),
                        max_nodes: value_or(p.max_nodes, DEFAULT_MAX_NODES),
                        provenance: p.provenance,
                        edge_kinds: p.edge_kinds,
                        call_sites,
                        max_call_sites: p.max_call_sites,
                        max_output_tokens: body_budget(p.max_output_tokens),
                    },
                ),
                Err(error) => Err(error),
            }
        },
        _ => Ok(GraphQuery::UnknownAction(p.action)),
    }
}

impl AwaitGraphSnapshot {
    /// A ready graph may still have no snapshot to give: every handle is in use, or the
    /// workspace was taken over meanwhile.
    pub fn answer(self, has_snapshot: bool, superseded: bool) -> (step: GraphStep)
        ensures
            has_snapshot ==> match step {
                GraphStep::Query(asked) => graph_asked(self.params, Ok(asked)),
                GraphStep::Refused(error) => graph_asked(self.params, Err(error)),
                _ => false,
            },
            !has_snapshot && superseded ==> step == GraphStep::Superseded,
            !has_snapshot && !superseded ==> step == GraphStep::Loading(None),
    {
        if has_snapshot {
            match graph_query(self.params) {
                Ok(asked) => GraphStep::Query(asked),
                Err(error) => GraphStep::Refused(error),
            }
        } else if superseded {
            GraphStep::Superseded
        } else {
            GraphStep::Loading(None)
        }
    }
}

/// Whatever is read of the graph, its build was started before, so that a graph that is not ready
/// becomes so: a request starts it unless the step is the schema, and a step that looks up names
/// has the resident workspace started too.
pub proof fn what_is_not_ready_is_being_built(
    p: GraphParams,
    default_resolve_limit: usize,
    step: GraphStep,
)
    requires
        graph_started(p, default_resolve_limit, step),
    ensures
        ({
            let builds = graph_builds(graph_action_of(p.action@), p.query is Some);
            &&& builds.graph <==> !(step is Schema)
            &&& builds.resident <==> step is Resolve
            &&& !builds.reference
        }),
{
}

proof fn lemma_every_action_has_a_name_of_its_own()
    ensures
        graph_action_of("schema"@) is Schema,
        graph_action_of("status"@) is Status,
        graph_action_of("resolve"@) is Resolve,
        graph_action_of("overview"@) is Overview,
        graph_action_of("node"@) is Node,
        graph_action_of("source"@) is Source,
        graph_action_of("neighbors"@) is Neighbors,
        graph_action_of("callers"@) is Callers,
        graph_action_of("callees"@) is Callees,
{
    reveal_strlit("schema");
    reveal_strlit("status");
    reveal_strlit("resolve");
    reveal_strlit("overview");
    reveal_strlit("node");
    reveal_strlit("source");
    reveal_strlit("neighbors");
    reveal_strlit("callers");
    reveal_strlit("callees");
    assert("schema"@.len() == 6);
    assert("status"@.len() == 6);
    assert("resolve"@.len() == 7);
    assert("overview"@.len() == 8);
    assert("node"@.len() == 4);
    assert("source"@.len() == 6);
    assert("neighbors"@.len() == 9);
    assert("callers"@.len() == 7);
    assert("callees"@.len() == 7);
    assert("schema"@[1] != "status"@[1]);
    assert("schema"@[1] != "source"@[1]);
    assert("status"@[1] != "source"@[1]);
    assert("resolve"@[0] != "callers"@[0]);
    assert("resolve"@[0] != "callees"@[0]);
    assert("callers"@[5] != "callees"@[5]);
}

/// Every action has one name, and every other text names none.
pub proof fn every_action_of_the_graph_has_one_name(action: &str, named: GraphAction)
    requires
        call_ensures(graph_action, (action,), named),
    ensures
        named is Schema <==> action@ == "schema"@,
        named is Status <==> action@ == "status"@,
        named is Resolve <==> action@ == "resolve"@,
        named is Overview <==> action@ == "overview"@,
        named is Node <==> action@ == "node"@,
        named is Source <==> action@ == "source"@,
        named is Neighbors <==> action@ == "neighbors"@,
        named is Callers <==> action@ == "callers"@,
        named is Callees <==> action@ == "callees"@,
{
    lemma_every_action_has_a_name_of_its_own();
}

/// The question is about the neighbours that the request names. Its bounds are those that the
/// request sets, for every value, and the defaults only where it sets none; all else that the
/// request says is handed on, and the name of the action says which way is followed.
pub open spec fn asks_about_neighbours(p: GraphParams, asked: GraphQuery) -> bool {
    asked matches GraphQuery::Neighbors {
        id,
        direction,
        detail,
        depth,
        max_nodes,
        provenance,
        edge_kinds,
        call_sites,
        max_call_sites,
        max_output_tokens,
    } && {
        &&& p.depth matches Some(asked) ==> depth == asked
        &&& p.depth is None ==> depth == 1
        &&& p.max_nodes matches Some(asked) ==> max_nodes == asked
        &&& p.max_nodes is None ==> max_nodes == 50
        &&& p.max_output_tokens matches Some(asked) ==> max_output_tokens == asked
        &&& p.max_output_tokens is None ==> max_output_tokens == 6000
        &&& p.call_sites matches Some(asked) ==> call_sites == asked
        &&& p.call_sites is None ==> !call_sites
        &&& max_call_sites == p.max_call_sites
        &&& Some(id) == p.id
        &&& detail == p.detail
        &&& provenance == p.provenance
        &&& edge_kinds == p.edge_kinds
        &&& direction is In <==> p.action@ == "callers"@
        &&& direction is Out <==> p.action@ == "callees"@
        &&& direction matches DirectionChoice::Named(dir) ==> dir == p.dir
    }
}

/// Whatever bound a request about neighbours sets is the bound of the question, for every value;
/// the default stands in only where the request sets none. Everything else that the request says
/// of its neighbours is handed on as it is, and the name of the action says which way they are
/// followed.
pub proof fn the_bounds_of_a_request_are_those_of_the_question(
    ask: AwaitGraphSnapshot,
    superseded: bool,
    step: GraphStep,
)
    requires
        call_ensures(AwaitGraphSnapshot::answer, (ask, true, superseded), step),
        ask.params.action@ == "neighbors"@ || ask.params.action@ == "callers"@
            || ask.params.action@ == "callees"@,
        ask.params.id is Some,
    ensures
        step matches GraphStep::Query(
            GraphQuery::Neighbors { depth, max_nodes, max_output_tokens, .. },
        ) && {
            &&& ask.params.depth matches Some(asked) ==> depth == asked
            &&& ask.params.depth is None ==> depth == 1
            &&& ask.params.max_nodes matches Some(asked) ==> max_nodes == asked
            &&& ask.params.max_nodes is None ==> max_nodes == 50
            &&& ask.params.max_output_tokens matches Some(asked) ==> max_output_tokens == asked
            &&& ask.params.max_output_tokens is None ==> max_output_tokens == 6000
        },
        step matches GraphStep::Query(asked) && asks_about_neighbours(ask.params, asked),
{
    lemma_every_action_has_a_name_of_its_own();
}

/// The other questions keep to what the request says in the same way: an overview to its top, a
/// node to its detail and its tokens, the sources to their ids and their tokens. A default stands
/// in only where the request sets no bound.
pub proof fn a_question_keeps_to_its_request(p: GraphParams, result: Result<GraphQuery, McpError>)
    requires
        call_ensures(graph_query, (p,), result),
    ensures
        p.action@ == "overview"@ ==> (result matches Ok(GraphQuery::Overview { top }) && (p.top
            matches Some(asked) ==> top == asked) && (p.top is None ==> top == 20)),
        p.action@ == "node"@ && p.id is Some ==> (result matches Ok(
            GraphQuery::Node { id, detail, max_output_tokens },
        ) && Some(id) == p.id && detail == p.detail && (p.max_output_tokens matches Some(asked)
            ==> max_output_tokens == asked) && (p.max_output_tokens is None ==> max_output_tokens
            == 6000)),
        p.action@ == "source"@ && p.ids@.len() > 0 ==> (result matches Ok(
            GraphQuery::Source { ids, max_output_tokens },
        ) && ids == p.ids && (p.max_output_tokens matches Some(asked) ==> max_output_tokens
            == asked) && (p.max_output_tokens is None ==> max_output_tokens == 4000)),
        (p.action@ == "neighbors"@ || p.action@ == "callers"@ || p.action@ == "callees"@) && p.id
            is Some ==> (result matches Ok(asked) && asks_about_neighbours(p, asked)),
        result matches Ok(GraphQuery::UnknownAction(action)) ==> action == p.action,
        result matches Ok(asked) && asked is UnknownAction <==> !(p.action@ == "overview"@
            || p.action@ == "node"@ || p.action@ == "source"@ || p.action@ == "neighbors"@
            || p.action@ == "callers"@ || p.action@ == "callees"@),
{
    lemma_every_action_has_a_name_of_its_own();
}

/// A question is refused exactly where it does not say what it is about: without an id, by the
/// name of its own action, and without a single id of a source.
pub proof fn a_question_about_nothing_is_refused(
    p: GraphParams,
    result: Result<GraphQuery, McpError>,
)
    requires
        call_ensures(graph_query, (p,), result),
    ensures
        result is Err <==> {
            ||| p.id is None && (p.action@ == "node"@ || p.action@ == "neighbors"@ || p.action@
                == "callers"@ || p.action@ == "callees"@)
            ||| p.ids@.len() == 0 && p.action@ == "source"@
        },
        result is Err && p.action@ != "source"@ ==> refuses(
            result->Err_0,
            "'"@ + "id"@ + "' is required for action '"@ + p.action@ + "'"@,
        ),
        result is Err && p.action@ == "source"@ ==> refuses(
            result->Err_0,
            "'ids' is required (non-empty) for action 'source'"@,
        ),
{
    lemma_every_action_has_a_name_of_its_own();
}

/// The schema, the status and the names need no graph that is ready, and every other request reads
/// the status first, with all that it says. Names are looked up as the request has them, with the
/// limit it sets or the default where it sets none; without a text they are refused.
pub proof fn a_request_to_the_graph_starts_by_its_action(
    p: GraphParams,
    default_resolve_limit: usize,
    step: GraphStep,
)
    requires
        call_ensures(graph, (p, default_resolve_limit), step),
    ensures
        step is Schema <==> p.action@ == "schema"@,
        step is Status <==> p.action@ == "status"@,
        step is Resolve <==> p.action@ == "resolve"@ && p.query is Some,
        step matches GraphStep::Resolve { query, limit } ==> Some(query) == p.query && (p.top
            matches Some(top) ==> limit == top) && (p.top is None ==> limit
            == default_resolve_limit),
        step matches GraphStep::Refused(error) ==> refuses(
            error,
            "'"@ + "query"@ + "' is required for action '"@ + "resolve"@ + "'"@,
        ),
        step is Refused <==> p.action@ == "resolve"@ && p.query is None,
        step is ReadStatus <==> p.action@ != "schema"@ && p.action@ != "status"@ && p.action@
            != "resolve"@,
        step matches GraphStep::ReadStatus(ask) ==> ask.params == p,
{
    lemma_every_action_has_a_name_of_its_own();
}

/// A graph is asked only where it is ready and the workspace is still this process's own. Else the
/// request is told why: taken over, not of this profile, still indexing, or failed to load, with
/// the message of the failure.
pub proof fn only_a_ready_graph_is_asked(
    ask: AwaitGraphStatus,
    superseded: bool,
    status: GraphStatus,
    step: GraphStep,
)
    requires
        call_ensures(AwaitGraphStatus::answer, (ask, superseded, status), step),
    ensures
        step is Superseded <==> superseded,
        step is TakeSnapshot <==> !superseded && status is Ready,
        step matches GraphStep::TakeSnapshot(next) ==> next.params == ask.params,
        step is Loading <==> !superseded && (status is Idle || status is Loading),
        step matches GraphStep::Loading(hint) ==> (hint matches Some(hint) && hint@
            == "call graph is still indexing; retry shortly"@),
        !superseded && status is Disabled ==> (step matches GraphStep::Refused(error) && refuses(
            error,
            "graph is only available in the workspace profile"@,
        )),
        !superseded && status is Failed ==> (step matches GraphStep::Refused(error) && breaks(
            error,
            "graph load failed: "@ + status->Failed_0@,
        )),
{
}

/// A snapshot is asked exactly what the request asks. Without one the request is told that the
/// workspace was taken over, or else to come back, without a hint.
pub proof fn a_snapshot_is_asked_what_the_request_asks(
    ask: AwaitGraphSnapshot,
    has_snapshot: bool,
    superseded: bool,
    step: GraphStep,
)
    requires
        call_ensures(AwaitGraphSnapshot::answer, (ask, has_snapshot, superseded), step),
    ensures
        has_snapshot <==> step is Query || step is Refused,
        step is Superseded <==> !has_snapshot && superseded,
        step is Loading <==> !has_snapshot && !superseded,
        step matches GraphStep::Loading(hint) ==> hint is None,
        step is Refused <==> has_snapshot && {
            ||| ask.params.id is None && (ask.params.action@ == "node"@ || ask.params.action@
                == "neighbors"@ || ask.params.action@ == "callers"@ || ask.params.action@
                == "callees"@)
            ||| ask.params.ids@.len() == 0 && ask.params.action@ == "source"@
        },
        step matches GraphStep::Refused(error) ==> {
            &&& ask.params.action@ != "source"@ ==> refuses(
                error,
                "'"@ + "id"@ + "' is required for action '"@ + ask.params.action@ + "'"@,
            )
            &&& ask.params.action@ == "source"@ ==> refuses(
                error,
                "'ids' is required (non-empty) for action 'source'"@,
            )
        },
        (step matches GraphStep::Query(asked) && asked is UnknownAction) <==> has_snapshot && !(
        ask.params.action@ == "overview"@ || ask.params.action@ == "node"@ || ask.params.action@
            == "source"@ || ask.params.action@ == "neighbors"@ || ask.params.action@ == "callers"@
            || ask.params.action@ == "callees"@),
        step matches GraphStep::Query(GraphQuery::UnknownAction(action)) ==> action
            == ask.params.action,
        has_snapshot && ask.params.action@ == "overview"@ ==> (step matches GraphStep::Query(
            GraphQuery::Overview { top },
        ) && (ask.params.top matches Some(asked) ==> top == asked) && (ask.params.top is None
            ==> top == 20)),
        has_snapshot && ask.params.action@ == "node"@ && ask.params.id is Some ==> (step
            matches GraphStep::Query(GraphQuery::Node { id, detail, max_output_tokens }) && Some(id)
            == ask.params.id && detail == ask.params.detail && (ask.params.max_output_tokens
            matches Some(asked) ==> max_output_tokens == asked) && (ask.params.max_output_tokens
            is None ==> max_output_tokens == 6000)),
        has_snapshot && ask.params.action@ == "source"@ && ask.params.ids@.len() > 0 ==> (step
            matches GraphStep::Query(GraphQuery::Source { ids, max_output_tokens }) && ids
            == ask.params.ids && (ask.params.max_output_tokens matches Some(asked)
            ==> max_output_tokens == asked) && (ask.params.max_output_tokens is None
            ==> max_output_tokens == 4000)),
{
    lemma_every_action_has_a_name_of_its_own();
}

/// Every request but the one for the schema starts the graph, and only one that looks up a name
/// starts the resident workspace with it.
pub proof fn a_request_starts_the_graph(p: GraphParams, loads: Loads)
    requires
        call_ensures(graph_loads, (&p,), loads),
    ensures
        loads.graph <==> p.action@ != "schema"@,
        loads.resident <==> p.action@ == "resolve"@ && p.query is Some,
        !loads.reference,
{
    lemma_every_action_has_a_name_of_its_own();
}

/// An answer about nodes may take what the request allows, and 6000 tokens where it does not say.
pub proof fn the_tokens_of_a_request_are_its_own(asked: Option<usize>, budget: usize)
    requires
        call_ensures(body_budget, (asked,), budget),
    ensures
        asked matches Some(tokens) ==> budget == tokens,
        asked is None ==> budget == 6000,
{
}

} // verus!
