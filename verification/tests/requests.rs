use mcp_server::answer::{cancellable_answer, CallOutcome};
use mcp_server::debug::{debug, default_debug_port, DebugParams, DebugRoute};
use mcp_server::diagnostics::{
    diagnostics, diagnostics_loads, range_of, DiagnosticsParams, DiagnosticsRoute, FileRequest,
    SweepRequest,
};
use mcp_server::error::{
    argument_error, require, task_error, McpError, INTERNAL_ERROR, INVALID_PARAMS,
    RESOURCE_NOT_FOUND,
};
use mcp_server::graph::{
    body_budget, graph, graph_loads, DirectionChoice, GraphParams, GraphQuery, GraphStep,
};
use mcp_server::help::{
    outline, read_resource, syntax_help, OutlineParams, OutlineRequest, SyntaxHelpParams,
    SyntaxHelpRequest,
};
use mcp_server::loads::Loads;
use mcp_server::metadata::{
    metadata, metadata_loads, MetadataParams, MetadataQuery, MetadataRead, MetadataRoute,
};
use mcp_server::profile::McpProfile;
use mcp_server::providers::{
    fallback_workspace_state, graph_left_open, graph_name_source, graph_provider_state,
    names_left_open, resident_provider_state, resolve_names, unread_resident_state,
    DiagnosticsStatus, Freshness, GraphNameSource, GraphStatus, NameReading, NameStep,
    ProviderState, ResidentOutcome,
};
use mcp_server::query::{
    event_log, execute, query, EventLogParams, ExecuteAction, ExecuteParams, ExecuteRoute,
    QueryParams, QueryRoute,
};
use mcp_server::resident::{resident_answer, ResidentAnswer, ResidentTool};
use mcp_server::search_command::{
    docs_action, non_empty_string, output_budget, reference_search, search_limit, search_loads,
    workspace_search, DocsRequest, ListPlatformParams, ReferenceSearchParams, SearchCommand,
    SearchPlan, SearchQueryParams, WorkspaceSearchParams,
};
use mcp_server::search_types::WorkspaceSearchMode;
use mcp_server::state::ReferenceSearchLifecycle;
use mcp_server::symbol_info::{
    references_anchor, references_budget, references_loads, symbol_info, symbol_loads,
    symbol_read, symbol_rescans, AnchorRefusal, CardRead, ResidentStamp, SymbolInfoParams,
    SymbolMemberKindFilter, SymbolStep,
};

fn text(text: &str) -> String {
    text.to_owned()
}

fn some(value: &str) -> Option<String> {
    Some(value.to_owned())
}

fn refused<T: std::fmt::Debug>(result: Result<T, McpError>) -> String {
    match result {
        Err(error) => {
            assert_eq!(error.code, INVALID_PARAMS);
            assert_eq!(error.reason_code, None);
            error.message
        }
        Ok(value) => panic!("expected a refusal, got {value:?}"),
    }
}

fn freshness() -> Freshness {
    Freshness { revision: 0, stale: false, reload: String::new(), topology: 0 }
}

#[test]
fn an_unread_resident_is_never_answered() {
    let outcomes: [ResidentOutcome<()>; 4] = [
        ResidentOutcome::Loading,
        ResidentOutcome::Disabled,
        ResidentOutcome::Failed("сборка упала".into()),
        ResidentOutcome::Ready((), freshness()),
    ];
    for outcome in &outcomes {
        assert_ne!(unread_resident_state(outcome), ProviderState::Answered);
    }
}

#[test]
fn a_read_that_handed_nothing_over_overrides_the_status_before_it() {
    assert_eq!(
        fallback_workspace_state(
            ProviderState::Answered,
            Some(&ResidentOutcome::<()>::Loading)
        ),
        ProviderState::NotReady,
    );
    assert_eq!(
        fallback_workspace_state(ProviderState::Failed, None::<&ResidentOutcome<()>>),
        ProviderState::Failed,
    );
}

#[test]
fn each_unread_outcome_keeps_its_own_advice() {
    assert_eq!(
        unread_resident_state(&ResidentOutcome::<()>::Loading),
        ProviderState::NotReady
    );
    assert_eq!(
        unread_resident_state(&ResidentOutcome::<()>::Disabled),
        ProviderState::Unavailable
    );
    assert_eq!(
        unread_resident_state(&ResidentOutcome::<()>::Failed("нет".into())),
        ProviderState::Failed
    );
}

#[test]
fn providers_answer_only_when_they_are_ready() {
    let failed = GraphStatus::Failed(text("x"));
    assert_eq!(graph_provider_state(&GraphStatus::Ready, true), ProviderState::Answered);
    assert_eq!(graph_provider_state(&GraphStatus::Ready, false), ProviderState::NotReady);
    assert_eq!(graph_provider_state(&GraphStatus::Idle, true), ProviderState::NotReady);
    assert_eq!(graph_provider_state(&GraphStatus::Loading, true), ProviderState::NotReady);
    assert_eq!(graph_provider_state(&failed, true), ProviderState::Failed);
    assert_eq!(graph_provider_state(&GraphStatus::Disabled, true), ProviderState::Unavailable);
    assert_eq!(resident_provider_state(&DiagnosticsStatus::Ready), ProviderState::Answered);
    assert_eq!(resident_provider_state(&DiagnosticsStatus::Idle), ProviderState::NotReady);
    assert_eq!(
        resident_provider_state(&DiagnosticsStatus::Failed(text("x"))),
        ProviderState::Failed
    );
    assert_eq!(
        resident_provider_state(&DiagnosticsStatus::Disabled),
        ProviderState::Unavailable
    );
    assert_eq!(graph_name_source(Some(1), &GraphStatus::Ready), GraphNameSource::Answering(1));
    assert_eq!(
        graph_name_source(Some(1), &failed),
        GraphNameSource::Absent(ProviderState::Failed)
    );
    assert_eq!(
        graph_name_source(None::<u8>, &GraphStatus::Ready),
        GraphNameSource::Absent(ProviderState::NotReady)
    );
}

#[test]
fn names_are_read_from_the_resident_or_from_nothing() {
    let first = || resolve_names::<u8>(&DiagnosticsStatus::Ready);
    let read = |outcome: ResidentOutcome<u8>| match first() {
        NameStep::ReadResident(ask) => ask.answer(outcome),
        NameStep::Answer(reading) => panic!("a ready workspace is read, got {reading:?}"),
    };
    assert_eq!(read(ResidentOutcome::Ready(3, freshness())), NameReading::Resident(3));
    assert_eq!(
        read(ResidentOutcome::Loading),
        NameReading::Detached(ProviderState::NotReady)
    );
    assert_eq!(
        read(ResidentOutcome::Failed(text("x"))),
        NameReading::Detached(ProviderState::Failed)
    );
    for (status, state) in [
        (DiagnosticsStatus::Idle, ProviderState::NotReady),
        (DiagnosticsStatus::Loading, ProviderState::NotReady),
        (DiagnosticsStatus::Disabled, ProviderState::Unavailable),
        (DiagnosticsStatus::Failed(text("x")), ProviderState::Failed),
    ] {
        assert_eq!(
            resolve_names::<u8>(&status),
            NameStep::Answer(NameReading::Detached(state))
        );
    }
    assert_eq!(names_left_open(0), None);
    assert!(names_left_open(1).unwrap().contains("not exhaustive"));
    assert_eq!(graph_left_open(0), None);
    assert!(graph_left_open(2).unwrap().contains("when the graph was built"));
}

#[test]
fn calls_that_are_cut_short_have_their_answers() {
    let answer = |outcome| cancellable_answer(outcome, || text("ask again"));
    assert_eq!(answer(CallOutcome::Ready(Ok(text("answer")))), Ok(text("answer")));
    assert_eq!(answer(CallOutcome::Superseded), Ok(text("ask again")));
    let cancelled = answer(CallOutcome::Cancelled).unwrap_err();
    assert_eq!((cancelled.code, cancelled.message.as_str()), (INTERNAL_ERROR, "request cancelled"));
    let panicked = answer(CallOutcome::Panicked).unwrap_err();
    assert_eq!(
        (panicked.code, panicked.message.as_str()),
        (INTERNAL_ERROR, "internal handler panic")
    );
}

#[test]
fn a_missing_field_is_named_with_its_action() {
    assert_eq!(require(Some(5), "line", "step"), Ok(5));
    assert_eq!(
        refused(require(None::<u8>, "line", "step")),
        "'line' is required for action 'step'"
    );
    assert_eq!(argument_error(text("bad")).code, INVALID_PARAMS);
    let task = task_error("panicked");
    assert_eq!((task.code, task.message.as_str()), (INTERNAL_ERROR, "Task error: panicked"));
}

fn metadata_params(action: &str) -> MetadataParams {
    MetadataParams {
        action: text(action),
        filter: None,
        meta_type: None,
        name_mask: None,
        max_items: None,
        object_type: None,
        object_name: None,
        form_name: None,
        max_output_tokens: None,
        connection: None,
        mode: None,
    }
}

fn resident_read(p: MetadataParams) -> MetadataRead {
    match metadata(p) {
        Ok(MetadataRoute::Resident(read)) => read,
        other => panic!("expected the resident, got {other:?}"),
    }
}

#[test]
fn metadata_modes_decide_where_to_read() {
    let unknown = MetadataParams { mode: some("live"), ..metadata_params("status") };
    assert_eq!(
        refused(metadata(unknown)),
        "Unknown metadata mode 'live'. Expected: auto, source, infobase"
    );
    for mode in [None, some("auto"), some("source"), some("infobase")] {
        let p = MetadataParams { mode, connection: some("c"), ..metadata_params("status") };
        assert_eq!(metadata(p), Ok(MetadataRoute::Status));
    }
    let p = MetadataParams { connection: some("c"), ..metadata_params("info") };
    assert_eq!(
        refused(metadata(p)),
        "Metadata action 'info' is unavailable in infobase mode. Expected: tree, object"
    );
    let p = MetadataParams {
        connection: some("c"),
        mode: some("source"),
        ..metadata_params("info")
    };
    assert_eq!(resident_read(p).query(), Ok(MetadataQuery::Info));
}

#[test]
fn live_metadata_needs_its_fields() {
    let live = |action| MetadataParams { mode: some("infobase"), ..metadata_params(action) };
    assert_eq!(
        refused(metadata(live("tree"))),
        "'meta_type' is required for action 'tree in infobase mode'"
    );
    assert_eq!(
        metadata(MetadataParams { meta_type: some("Catalog"), ..live("tree") }),
        Ok(MetadataRoute::LiveTree {
            connection: None,
            meta_type: text("Catalog"),
            name_mask: None,
            max_items: 100
        })
    );
    assert_eq!(
        refused(metadata(live("object"))),
        "'object_type' is required for action 'object'"
    );
    let typed = MetadataParams { object_type: some("Catalog"), ..live("object") };
    assert_eq!(refused(metadata(typed.clone())), "'object_name' is required for action 'object'");
    assert_eq!(
        metadata(MetadataParams { object_name: some("Товары"), connection: some("c"), ..typed }),
        Ok(MetadataRoute::LiveObject {
            connection: some("c"),
            object_type: text("Catalog"),
            object_name: text("Товары")
        })
    );
    assert!(refused(metadata(live("form"))).contains("'form' is unavailable"));
}

#[test]
fn resident_metadata_is_looked_up_by_action() {
    assert_eq!(
        refused(metadata(metadata_params("form"))),
        "'object_type' is required for action 'form'"
    );
    let form = MetadataParams {
        object_type: some("Document"),
        form_name: some("Форма"),
        ..metadata_params("form")
    };
    assert_eq!(
        metadata(form),
        Ok(MetadataRoute::Form {
            object_type: text("Document"),
            object_name: None,
            form_name: some("Форма")
        })
    );
    let tree = MetadataParams { filter: some("Спр"), ..metadata_params("tree") };
    assert_eq!(
        resident_read(tree).query(),
        Ok(MetadataQuery::Tree { filter: some("Спр"), max_output_tokens: 6000 })
    );
    let object = resident_read(metadata_params("object"));
    assert_eq!(refused(object.query()), "'object_type' is required for action 'object'");
    let object = MetadataRead { object_type: some("Catalog"), ..object };
    assert_eq!(refused(object.query()), "'object_name' is required for action 'object'");
    assert!(object.rescans(true, true));
    assert!(!object.rescans(false, true) && !object.rescans(true, false));
    let object = MetadataRead { object_name: some("Товары"), ..object };
    assert_eq!(
        object.query(),
        Ok(MetadataQuery::Object { object_type: text("Catalog"), object_name: text("Товары") })
    );
    let other = resident_read(metadata_params("list"));
    assert_eq!(other.query(), Ok(MetadataQuery::UnknownAction(text("list"))));
    assert!(!other.rescans(true, true));
}

fn query_params(action: &str, asked: Option<&str>) -> QueryParams<u8> {
    QueryParams {
        action: text(action),
        query: asked.map(str::to_owned),
        limit: Some(3),
        parameters: Some(9),
        connection: some("c"),
        root_id: some(""),
        max_output_tokens: Some(50),
    }
}

#[test]
fn queries_are_routed_by_action() {
    assert_eq!(query(query_params("schema", None)), Ok(QueryRoute::Schema));
    assert_eq!(
        query(query_params("validate", Some("ВЫБРАТЬ 1"))),
        Ok(QueryRoute::Validate {
            query: text("ВЫБРАТЬ 1"),
            root_id: some(""),
            connection: some("c"),
            max_output_tokens: 50
        })
    );
    assert_eq!(
        query(query_params("execute", Some("ВЫБРАТЬ 1"))),
        Ok(QueryRoute::Execute {
            query: text("ВЫБРАТЬ 1"),
            limit: Some(3),
            parameters: Some(9),
            connection: some("c"),
            max_output_tokens: 50
        })
    );
    for action in ["validate", "execute"] {
        assert_eq!(
            refused(query(query_params(action, None))),
            format!("'query' is required for action '{action}'")
        );
    }
    assert_eq!(
        query(query_params("run", None)),
        Ok(QueryRoute::UnknownAction(text("run")))
    );
}

#[test]
fn code_is_checked_run_or_evaluated() {
    let p = |action: &str| ExecuteParams {
        action: text(action),
        code: text("А = 1;"),
        connection: None,
        max_output_tokens: None,
    };
    for (name, action) in [
        ("check", ExecuteAction::Check),
        ("run", ExecuteAction::Run),
        ("eval", ExecuteAction::Eval),
    ] {
        assert_eq!(
            execute(p(name)),
            ExecuteRoute::Do {
                action,
                code: text("А = 1;"),
                connection: None,
                max_output_tokens: 6000
            }
        );
    }
    assert_eq!(execute(p("Run")), ExecuteRoute::UnknownAction(text("Run")));
    let (log, tokens) = event_log(EventLogParams {
        date_from: some("2024-01-01"),
        date_to: None,
        level: some("error"),
        user: None,
        event: None,
        metadata: None,
        contains: some("блок"),
        limit: Some(5),
        connection: some("c"),
        max_output_tokens: None,
    });
    assert_eq!(tokens, 6000);
    assert_eq!((log.date_from, log.level, log.contains), (some("2024-01-01"), some("error"), some("блок")));
    assert_eq!((log.limit, log.connection, log.user), (Some(5), some("c"), None));
}

fn debug_params(action: &str) -> DebugParams {
    DebugParams {
        action: text(action),
        host: None,
        port: None,
        infobase: None,
        config_root: None,
        extensions: vec![],
        auto_attach: vec![],
        module: None,
        line: None,
        condition: None,
        direction: None,
        timeout_secs: Some(4),
        stack_level: Some(2),
        expression: None,
        max_output_tokens: None,
    }
}

#[test]
fn the_debugger_is_routed_by_action() {
    assert_eq!(default_debug_port(), 1550);
    assert_eq!(debug(debug_params("disconnect")), Ok(DebugRoute::Disconnect));
    assert_eq!(debug(debug_params("continue")), Ok(DebugRoute::Continue));
    assert_eq!(
        debug(debug_params("wait_stop")),
        Ok(DebugRoute::WaitStop { timeout_secs: Some(4), max_output_tokens: 6000 })
    );
    assert_eq!(
        debug(debug_params("stack_trace")),
        Ok(DebugRoute::StackTrace { max_output_tokens: 6000 })
    );
    assert_eq!(
        debug(debug_params("locals")),
        Ok(DebugRoute::Locals { stack_level: Some(2), max_output_tokens: 6000 })
    );
    assert_eq!(debug(debug_params("pause")), Ok(DebugRoute::UnknownAction(text("pause"))));
    let attach = DebugParams {
        host: some("localhost"),
        infobase: some("db"),
        extensions: vec![(text("Расш"), text("ext"))],
        ..debug_params("attach")
    };
    assert_eq!(
        debug(attach.clone()),
        Ok(DebugRoute::Attach {
            host: text("localhost"),
            port: 1550,
            infobase: text("db"),
            config_root: None,
            extensions: vec![(text("Расш"), text("ext"))],
            auto_attach: vec![],
            max_output_tokens: 6000
        })
    );
    let Ok(DebugRoute::Attach { port, .. }) = debug(DebugParams { port: Some(1560), ..attach })
    else {
        panic!("attaches")
    };
    assert_eq!(port, 1560);
    let at = |action| DebugParams { module: some("Модуль"), line: Some(7), ..debug_params(action) };
    assert_eq!(
        debug(at("set_breakpoint")),
        Ok(DebugRoute::SetBreakpoint { module: text("Модуль"), line: 7, condition: None })
    );
    assert_eq!(
        debug(at("remove_breakpoint")),
        Ok(DebugRoute::RemoveBreakpoint { module: text("Модуль"), line: 7 })
    );
    assert_eq!(
        debug(DebugParams { direction: some("over"), ..debug_params("step") }),
        Ok(DebugRoute::Step { direction: text("over") })
    );
    assert_eq!(
        debug(DebugParams { expression: some("А"), ..debug_params("eval") }),
        Ok(DebugRoute::Eval {
            expression: text("А"),
            stack_level: Some(2),
            max_output_tokens: 6000
        })
    );
}

#[test]
fn the_debugger_names_the_first_missing_field() {
    let missing = |p: DebugParams| refused(debug(p));
    assert_eq!(missing(debug_params("attach")), "'host' is required for action 'attach'");
    assert_eq!(
        missing(DebugParams { host: some("h"), ..debug_params("attach") }),
        "'infobase' is required for action 'attach'"
    );
    for action in ["set_breakpoint", "remove_breakpoint"] {
        assert_eq!(
            missing(debug_params(action)),
            format!("'module' is required for action '{action}'")
        );
        assert_eq!(
            missing(DebugParams { module: some("m"), ..debug_params(action) }),
            format!("'line' is required for action '{action}'")
        );
    }
    assert_eq!(missing(debug_params("step")), "'direction' is required for action 'step'");
    assert_eq!(missing(debug_params("eval")), "'expression' is required for action 'eval'");
}

fn graph_params(action: &str) -> GraphParams {
    GraphParams {
        action: text(action),
        id: None,
        query: None,
        ids: vec![],
        max_output_tokens: None,
        detail: None,
        dir: None,
        depth: None,
        max_nodes: None,
        provenance: vec![],
        edge_kinds: vec![],
        top: None,
        call_sites: None,
        max_call_sites: None,
    }
}

/// Asks a graph that is ready and has a snapshot to give.
fn asked(p: GraphParams) -> GraphStep {
    let GraphStep::ReadStatus(ask) = graph(p, 15) else { panic!("reads the status") };
    let GraphStep::TakeSnapshot(ask) = ask.answer(false, GraphStatus::Ready) else {
        panic!("takes a snapshot")
    };
    ask.answer(true, false)
}

#[test]
fn the_graph_answers_some_actions_without_being_ready() {
    assert_eq!(graph(graph_params("schema"), 15), GraphStep::Schema);
    assert_eq!(graph(graph_params("status"), 15), GraphStep::Status);
    let named = GraphParams { query: some("Считать"), ..graph_params("resolve") };
    assert_eq!(
        graph(named.clone(), 15),
        GraphStep::Resolve { query: text("Считать"), limit: 15 }
    );
    assert_eq!(
        graph(GraphParams { top: Some(3), ..named }, 15),
        GraphStep::Resolve { query: text("Считать"), limit: 3 }
    );
    let GraphStep::Refused(error) = graph(graph_params("resolve"), 15) else { panic!("refused") };
    assert_eq!(error.message, "'query' is required for action 'resolve'");
}

#[test]
fn a_graph_that_is_not_ready_says_why() {
    let status = |superseded, status| {
        let GraphStep::ReadStatus(ask) = graph(graph_params("overview"), 15) else { panic!() };
        ask.answer(superseded, status)
    };
    assert_eq!(status(true, GraphStatus::Ready), GraphStep::Superseded);
    assert_eq!(status(true, GraphStatus::Disabled), GraphStep::Superseded);
    for loading in [GraphStatus::Idle, GraphStatus::Loading] {
        assert_eq!(
            status(false, loading),
            GraphStep::Loading(some("call graph is still indexing; retry shortly"))
        );
    }
    let GraphStep::Refused(error) = status(false, GraphStatus::Disabled) else { panic!() };
    assert_eq!(
        (error.code, error.message.as_str()),
        (INVALID_PARAMS, "graph is only available in the workspace profile")
    );
    let GraphStep::Refused(error) = status(false, GraphStatus::Failed(text("oom"))) else {
        panic!()
    };
    assert_eq!(
        (error.code, error.message.as_str()),
        (INTERNAL_ERROR, "graph load failed: oom")
    );
    let GraphStep::TakeSnapshot(ask) = status(false, GraphStatus::Ready) else { panic!() };
    assert_eq!(ask.clone().answer(false, false), GraphStep::Loading(None));
    assert_eq!(ask.answer(false, true), GraphStep::Superseded);
}

#[test]
fn a_ready_graph_is_asked_by_action() {
    assert_eq!(
        asked(graph_params("overview")),
        GraphStep::Query(GraphQuery::Overview { top: 20 })
    );
    assert_eq!(
        asked(GraphParams { id: some("m::f"), detail: some("full"), ..graph_params("node") }),
        GraphStep::Query(GraphQuery::Node {
            id: text("m::f"),
            detail: some("full"),
            max_output_tokens: 6000
        })
    );
    assert_eq!(
        asked(GraphParams { ids: vec![text("a")], ..graph_params("source") }),
        GraphStep::Query(GraphQuery::Source { ids: vec![text("a")], max_output_tokens: 4000 })
    );
    for (action, direction) in [
        ("callers", DirectionChoice::In),
        ("callees", DirectionChoice::Out),
        ("neighbors", DirectionChoice::Named(some("both"))),
    ] {
        let p = GraphParams { id: some("m::f"), dir: some("both"), ..graph_params(action) };
        assert_eq!(
            asked(p),
            GraphStep::Query(GraphQuery::Neighbors {
                id: text("m::f"),
                direction,
                detail: None,
                depth: 1,
                max_nodes: 50,
                provenance: vec![],
                edge_kinds: vec![],
                call_sites: false,
                max_call_sites: None,
                max_output_tokens: 6000
            })
        );
    }
    assert_eq!(
        asked(graph_params("walk")),
        GraphStep::Query(GraphQuery::UnknownAction(text("walk")))
    );
    let message = |p| match asked(p) {
        GraphStep::Refused(error) => error.message,
        other => panic!("expected a refusal, got {other:?}"),
    };
    assert_eq!(message(graph_params("node")), "'id' is required for action 'node'");
    assert_eq!(message(graph_params("callers")), "'id' is required for action 'callers'");
    assert_eq!(
        message(graph_params("source")),
        "'ids' is required (non-empty) for action 'source'"
    );
}

fn symbol_params(symbol: Option<&str>, path: Option<&str>, line: Option<u32>) -> SymbolInfoParams {
    SymbolInfoParams {
        symbol: symbol.map(str::to_owned),
        root_id: None,
        path: path.map(str::to_owned),
        line,
        column: None,
        include_sections: vec![],
        member_kind: None,
        member_name: None,
        locale: None,
        max_output_tokens: None,
    }
}

#[test]
fn answers_about_nodes_and_references_have_their_budgets() {
    assert_eq!((body_budget(None), body_budget(Some(7))), (6000, 7));
    assert_eq!((references_budget(None), references_budget(Some(0))), (6000, 0));
    let p = GraphParams { id: some("m::f"), max_output_tokens: Some(9), ..graph_params("node") };
    assert!(matches!(
        asked(p),
        GraphStep::Query(GraphQuery::Node { max_output_tokens: 9, .. })
    ));
}

const NOTHING: Loads = Loads { graph: false, resident: false, reference: false };
const GRAPH: Loads = Loads { graph: true, ..NOTHING };
const RESIDENT: Loads = Loads { resident: true, ..NOTHING };

#[test]
fn every_request_to_the_graph_but_the_schema_starts_it() {
    assert_eq!(graph_loads(&graph_params("schema")), NOTHING);
    for action in ["status", "overview", "node", "source", "neighbors", "callers", "callees", "?"] {
        assert_eq!(graph_loads(&graph_params(action)), GRAPH, "{action}");
    }
    let named = GraphParams { query: some("Считать"), ..graph_params("resolve") };
    assert_eq!(graph_loads(&named), Loads { graph: true, resident: true, reference: false });
    assert_eq!(graph_loads(&graph_params("resolve")), GRAPH, "a refused lookup too");
}

#[test]
fn requests_about_the_workspace_start_it() {
    for action in ["status", "info", "tree", "object", "?"] {
        assert_eq!(metadata_loads(&metadata_params(action)), RESIDENT, "{action}");
    }
    assert_eq!(metadata_loads(&metadata_params("form")), NOTHING);
    let with = |action, connection: Option<&str>, mode: Option<&str>| {
        metadata_loads(&MetadataParams {
            connection: connection.map(str::to_owned),
            mode: mode.map(str::to_owned),
            ..metadata_params(action)
        })
    };
    assert_eq!(with("tree", Some("base"), None), NOTHING);
    assert_eq!(with("tree", Some("base"), Some("source")), RESIDENT);
    assert_eq!(with("object", None, Some("infobase")), NOTHING);
    assert_eq!(with("status", Some("base"), Some("infobase")), RESIDENT);
    assert_eq!(with("status", None, Some("?")), NOTHING);

    for (action, loads) in [
        ("schema", NOTHING),
        ("catalog", NOTHING),
        ("status", RESIDENT),
        ("file", NOTHING),
        ("workspace", RESIDENT),
        ("?", NOTHING),
    ] {
        assert_eq!(diagnostics_loads(&diagnostics_params(action)), loads, "{action}");
    }
    let file = DiagnosticsParams { path: some("a.bsl"), ..diagnostics_params("file") };
    assert_eq!(diagnostics_loads(&file), RESIDENT);
    let starved = DiagnosticsParams { max_output_tokens: Some(255), ..file };
    assert_eq!(diagnostics_loads(&starved), NOTHING);
    let status = DiagnosticsParams { max_output_tokens: Some(1), ..diagnostics_params("status") };
    assert_eq!(diagnostics_loads(&status), RESIDENT, "the status keeps to no budget");

    let named = symbol_params(Some("А.Б"), None, None);
    assert_eq!(
        symbol_loads(&named, true, true),
        Loads { graph: true, resident: true, reference: false }
    );
    assert_eq!(symbol_loads(&named, true, false), RESIDENT);
    assert_eq!(symbol_loads(&named, false, true), NOTHING);
    assert_eq!(symbol_loads(&symbol_params(None, None, None), true, true), NOTHING);
    assert_eq!(references_loads(true, false), RESIDENT);
    assert_eq!(references_loads(false, true), RESIDENT);
    assert_eq!(references_loads(false, false), NOTHING);
}

#[test]
fn documentation_beside_the_workspace_is_built_when_it_is_searched() {
    let reference = Loads { reference: true, ..NOTHING };
    let docs = |params| SearchCommand::from(WorkspaceSearchParams::FindDocs(params));
    let loads = |profile, command: SearchCommand| search_loads(profile, &command);
    assert_eq!(loads(McpProfile::Workspace, docs(search_query(None))), reference);
    let semantic = SearchCommand::from(WorkspaceSearchParams::SearchDocs(search_query(None)));
    assert_eq!(loads(McpProfile::Workspace, semantic.clone()), reference);
    assert_eq!(loads(McpProfile::Reference, semantic), NOTHING);
    let code = SearchCommand::SearchCode(search_query(None));
    assert_eq!(loads(McpProfile::Workspace, code), NOTHING);
    assert_eq!(loads(McpProfile::Workspace, SearchCommand::Status), NOTHING);
    assert_eq!(loads(McpProfile::Workspace, SearchCommand::ListPlatform(listing())), NOTHING);
}

#[test]
fn a_symbol_is_asked_for_by_name_or_whole_position() {
    assert_eq!(symbol_info(&symbol_params(Some("А.Б"), None, None), true), Ok(6000));
    assert_eq!(symbol_info(&symbol_params(None, Some("a.bsl"), Some(0)), true), Ok(6000));
    assert_eq!(symbol_info(&symbol_params(Some("А"), Some("a.bsl"), Some(0)), true), Ok(6000));
    assert_eq!(
        refused(symbol_info(&symbol_params(Some("А..Б"), None, None), false)),
        "'symbol' must be a dot-separated sequence of identifiers"
    );
    assert_eq!(
        refused(symbol_info(&symbol_params(None, None, None), true)),
        "one of 'symbol' or 'path'+'line' is required"
    );
    let half = "positional context requires both 'path' and 'line'";
    assert_eq!(refused(symbol_info(&symbol_params(Some("А"), Some("a.bsl"), None), true)), half);
    assert_eq!(refused(symbol_info(&symbol_params(None, None, Some(3)), true)), half);
    let column = SymbolInfoParams { column: Some(1), ..symbol_params(Some("А"), None, None) };
    assert_eq!(refused(symbol_info(&column, true)), half);
    let rooted = SymbolInfoParams { root_id: some(""), ..symbol_params(Some("А"), None, None) };
    assert_eq!(refused(symbol_info(&rooted, true)), half);
    assert!(symbol_rescans(true, true));
    assert!(!symbol_rescans(false, true) && !symbol_rescans(true, false));
}

#[test]
fn a_symbol_that_is_not_found_is_looked_up_by_name() {
    let fresh = || Freshness { revision: 4, stale: true, reload: text("queued"), topology: 9 };
    let read = |card| ResidentOutcome::Ready(Ok(CardRead { card, unread_files: 2 }), fresh());
    let stamp = ResidentStamp { revision: 4, topology: 9, stale: true, unread_files: 2 };
    assert_eq!(
        symbol_read::<u8, u8>(some("А"), read(Some(1))),
        SymbolStep::RenderCard { card: 1, stamp }
    );
    let SymbolStep::LookUpNames(ask) = symbol_read::<u8, u8>(some("А"), read(None)) else {
        panic!("looks for names")
    };
    assert_eq!(ask.clone().answer::<u8, u8>(ResidentOutcome::Loading), SymbolStep::Loading);
    assert_eq!(
        ask.answer::<u8, u8>(ResidentOutcome::Ready(7, fresh())),
        SymbolStep::RenderNotFound { symbol: text("А"), candidates: 7, stamp }
    );
    let SymbolStep::LookUpNames(ask) = symbol_read::<u8, u8>(None, read(None)) else {
        panic!("looks for names")
    };
    assert_eq!(ask.symbol, "");
    assert_eq!(symbol_read::<u8, u8>(None, ResidentOutcome::Loading), SymbolStep::Loading);
    assert_eq!(
        symbol_read::<u8, u8>(None, ResidentOutcome::Failed(text("db"))),
        SymbolStep::DatabaseError(text("db"))
    );
    let SymbolStep::Refused(error) = symbol_read::<u8, u8>(None, ResidentOutcome::Disabled) else {
        panic!("refused")
    };
    assert_eq!(error.message, "symbol_info is only available in the workspace profile");
    assert_eq!(
        symbol_read::<u8, u8>(None, ResidentOutcome::Ready(Err(error.clone()), fresh())),
        SymbolStep::Refused(error)
    );
}

#[test]
fn member_kinds_have_their_names() {
    let names = [
        (SymbolMemberKindFilter::Attribute, "attribute"),
        (SymbolMemberKindFilter::TabularSection, "tabular_section"),
        (SymbolMemberKindFilter::Method, "method"),
        (SymbolMemberKindFilter::Variable, "variable"),
        (SymbolMemberKindFilter::Property, "property"),
        (SymbolMemberKindFilter::FormAttribute, "form_attribute"),
        (SymbolMemberKindFilter::FormElement, "form_element"),
        (SymbolMemberKindFilter::Handler, "handler"),
    ];
    for (kind, name) in names {
        assert_eq!(kind.as_str(), name);
    }
}

#[test]
fn references_start_from_a_symbol_or_a_file() {
    assert_eq!(references_anchor(true, false, false), Ok(()));
    assert_eq!(references_anchor(false, true, false), Ok(()));
    assert_eq!(references_anchor(false, false, true), Err(AnchorRefusal::ContentNeedsPath));
    assert_eq!(references_anchor(false, false, false), Err(AnchorRefusal::NoAnchor));
}

fn diagnostics_params(action: &str) -> DiagnosticsParams {
    DiagnosticsParams {
        action: text(action),
        path: None,
        root_id: None,
        codes: vec![],
        locale: None,
        min_severity: None,
        range_start: None,
        range_end: None,
        detail: None,
        max_findings: None,
        max_files: None,
        max_output_tokens: None,
    }
}

#[test]
fn diagnostics_are_routed_by_action() {
    assert_eq!(diagnostics(diagnostics_params("schema"), 9), Ok(DiagnosticsRoute::Schema));
    assert_eq!(diagnostics(diagnostics_params("status"), 9), Ok(DiagnosticsRoute::Status));
    assert_eq!(
        diagnostics(diagnostics_params("catalog"), 9),
        Ok(DiagnosticsRoute::Catalog { locale: None, codes: vec![], max_output_tokens: None })
    );
    assert_eq!(
        diagnostics(diagnostics_params("lint"), 9),
        Ok(DiagnosticsRoute::UnknownAction(text("lint")))
    );
    assert_eq!(
        refused(diagnostics(diagnostics_params("file"), 9)),
        "'path' is required for action 'file'"
    );
    let file = DiagnosticsParams {
        path: some("a.bsl"),
        range_start: Some(5),
        ..diagnostics_params("file")
    };
    assert_eq!(
        diagnostics(file, 9),
        Ok(DiagnosticsRoute::File(FileRequest {
            path: text("a.bsl"),
            root_id: None,
            min_severity: None,
            detail: None,
            codes: vec![],
            range: Some((5, usize::MAX)),
            max_findings: 200,
            max_output_tokens: None
        }))
    );
    let sweep = |max_files, ceiling| {
        let p = DiagnosticsParams { max_files, ..diagnostics_params("workspace") };
        match diagnostics(p, ceiling) {
            Ok(DiagnosticsRoute::Workspace(SweepRequest { max_files, .. })) => max_files,
            other => panic!("expected a sweep, got {other:?}"),
        }
    };
    assert_eq!(sweep(None, 5000), 1000);
    assert_eq!(sweep(Some(9000), 5000), 5000);
    assert_eq!(sweep(Some(7), 5000), 7);
    assert_eq!(range_of(Some(1), Some(2)), Some((1, 2)));
    assert_eq!(range_of(None, Some(2)), Some((0, 2)));
    assert_eq!(range_of(None, None), None);
}

#[test]
fn findings_are_not_squeezed_below_their_minimum() {
    for action in ["catalog", "file", "workspace"] {
        let p = |tokens| DiagnosticsParams {
            max_output_tokens: Some(tokens),
            path: some("a.bsl"),
            ..diagnostics_params(action)
        };
        assert_eq!(
            refused(diagnostics(p(255), 9)),
            "max_output_tokens must be at least 256 for diagnostics"
        );
        assert!(diagnostics(p(256), 9).is_ok());
    }
    let p = DiagnosticsParams { max_output_tokens: Some(1), ..diagnostics_params("status") };
    assert_eq!(diagnostics(p, 9), Ok(DiagnosticsRoute::Status));
}

#[test]
fn resident_tools_answer_in_their_own_words() {
    let answer = |tool, outcome: ResidentOutcome<u8>| resident_answer(tool, outcome);
    assert_eq!(
        answer(ResidentTool::Metadata, ResidentOutcome::Ready(1, freshness())),
        ResidentAnswer::Ready(1, freshness())
    );
    assert_eq!(
        answer(ResidentTool::Metadata, ResidentOutcome::Loading),
        ResidentAnswer::Loading
    );
    let cases = [
        (ResidentTool::Metadata, "metadata", "metadata"),
        (ResidentTool::References, "references", "references"),
        (ResidentTool::DiagnosticsFile, "diagnostics 'file'", "diagnostics"),
        (ResidentTool::DiagnosticsWorkspace, "diagnostics 'workspace'", "diagnostics"),
    ];
    for (tool, subject, database) in cases {
        let ResidentAnswer::Refused(error) = answer(tool, ResidentOutcome::Disabled) else {
            panic!("refused")
        };
        assert_eq!(error.code, INVALID_PARAMS);
        assert_eq!(
            error.message,
            format!("{subject} is only available in the workspace profile")
        );
        let ResidentAnswer::Refused(error) = answer(tool, ResidentOutcome::Failed(text("oom")))
        else {
            panic!("refused")
        };
        assert_eq!(error.code, INTERNAL_ERROR);
        assert_eq!(error.message, format!("{database} database: oom"));
    }
}

#[test]
fn help_outlines_and_resources_are_found() {
    assert_eq!(
        syntax_help(SyntaxHelpParams::ByName {
            name: text("Массив"),
            owner_type: None,
            max_output_tokens: None
        }),
        SyntaxHelpRequest::ByName {
            name: text("Массив"),
            owner_type: None,
            max_output_tokens: 6000
        }
    );
    assert_eq!(
        syntax_help(SyntaxHelpParams::ByReferenceId {
            reference_id: text("type::x~digest"),
            max_output_tokens: Some(100)
        }),
        SyntaxHelpRequest::ByReferenceId {
            reference_id: text("type::x~digest"),
            max_output_tokens: 100
        }
    );
    let p = OutlineParams { path: text("a.bsl"), root_id: None, mode: None, max_output_tokens: None };
    assert_eq!(
        outline(p.clone(), some("/w")),
        Ok(OutlineRequest {
            workspace_root: text("/w"),
            path: text("a.bsl"),
            root_id: None,
            mode: None,
            max_output_tokens: 6000
        })
    );
    assert_eq!(
        refused(outline(p, None)),
        "`outline` is only available in the workspace profile"
    );
    assert_eq!(read_resource("bsl://contract", "bsl://contract"), Ok(()));
    let error = read_resource("bsl://other", "bsl://contract").unwrap_err();
    assert_eq!(
        (error.code, error.message.as_str()),
        (RESOURCE_NOT_FOUND, "Unknown resource 'bsl://other'")
    );
}

fn search_query(limit: Option<usize>) -> SearchQueryParams {
    SearchQueryParams { query: text("Массив"), limit, max_output_tokens: None }
}

fn listing() -> ListPlatformParams {
    ListPlatformParams { kind: some("type"), name: None, max_output_tokens: Some(5) }
}

const LOCAL: WorkspaceSearchMode = WorkspaceSearchMode::SqliteLocal;
const SHARED: WorkspaceSearchMode = WorkspaceSearchMode::PostgresRemoteOverlay;

#[test]
fn both_profiles_make_the_same_commands() {
    let docs = |limit| SearchCommand::FindDocs {
        query: text("Массив"),
        limit,
        max_output_tokens: None,
    };
    assert_eq!(
        SearchCommand::from(WorkspaceSearchParams::FindDocs(search_query(Some(2)))),
        docs(Some(2))
    );
    assert_eq!(
        SearchCommand::from(ReferenceSearchParams::FindDocs(search_query(None))),
        docs(None)
    );
    assert_eq!(SearchCommand::from(WorkspaceSearchParams::Status), SearchCommand::Status);
    assert_eq!(SearchCommand::from(ReferenceSearchParams::Status), SearchCommand::Status);
    assert_eq!(
        SearchCommand::from(WorkspaceSearchParams::SearchCode(search_query(None))),
        SearchCommand::SearchCode(search_query(None))
    );
    assert_eq!(
        SearchCommand::from(WorkspaceSearchParams::ListPlatform(listing())),
        SearchCommand::from(ReferenceSearchParams::ListPlatform(listing()))
    );
    assert_eq!(
        SearchCommand::from(WorkspaceSearchParams::SearchDocs(search_query(None))),
        SearchCommand::from(ReferenceSearchParams::SearchDocs(search_query(None)))
    );
}

#[test]
fn code_is_searched_unless_the_shared_baseline_is_still_opening() {
    let plan = |mode, pending| {
        workspace_search(
            SearchCommand::SearchCode(search_query(Some(500))),
            mode,
            pending,
            ReferenceSearchLifecycle::Ready,
        )
    };
    let search = SearchPlan::SearchCode {
        query: text("Массив"),
        limit: 50,
        max_output_tokens: 6000,
    };
    assert_eq!(plan(SHARED, true), Ok(SearchPlan::BaselineWarming));
    assert_eq!(plan(SHARED, false), Ok(search.clone()));
    assert_eq!(plan(LOCAL, true), Ok(search));
    assert_eq!(search_limit(None), 10);
    assert_eq!(search_limit(Some(0)), 0);
    assert_eq!(output_budget(Some(0)), 0);
}

#[test]
fn documentation_is_searched_unless_its_search_could_not_be_set_up() {
    let docs = |semantic| DocsRequest {
        semantic,
        query: text("Массив"),
        limit: 10,
        max_output_tokens: 6000,
    };
    let failed = || ReferenceSearchLifecycle::Failed {
        message: text("disk full"),
        reason_code: text("reference_init_failed"),
    };
    for (semantic, action) in [(false, "find_docs"), (true, "search_docs")] {
        assert_eq!(docs_action(semantic), action);
        let command = || {
            SearchCommand::from(if semantic {
                ReferenceSearchParams::SearchDocs(search_query(None))
            } else {
                ReferenceSearchParams::FindDocs(search_query(None))
            })
        };
        for lifecycle in [
            ReferenceSearchLifecycle::Uninitialized,
            ReferenceSearchLifecycle::Loading,
            ReferenceSearchLifecycle::Ready,
        ] {
            assert_eq!(
                reference_search(command(), lifecycle.clone()),
                Ok(SearchPlan::Docs(docs(semantic)))
            );
            assert_eq!(
                workspace_search(command(), LOCAL, true, lifecycle),
                Ok(SearchPlan::Docs(docs(semantic)))
            );
        }
        let error = reference_search(command(), failed()).unwrap_err();
        assert_eq!(error, workspace_search(command(), SHARED, true, failed()).unwrap_err());
        assert_eq!(error.code, INTERNAL_ERROR);
        assert_eq!(error.message, "reference search initialization failed: disk full");
        assert_eq!(error.reason_code.as_deref(), Some("reference_init_failed"));
    }
    assert_eq!(reference_search(SearchCommand::Status, failed()), Ok(SearchPlan::Status));
    assert_eq!(
        reference_search(SearchCommand::ListPlatform(listing()), failed()),
        Ok(SearchPlan::ListPlatform { kind: some("type"), name: None, max_output_tokens: 5 })
    );
}

#[test]
fn an_empty_query_is_refused() {
    assert_eq!(non_empty_string(text("а")), Ok(text("а")));
    assert_eq!(non_empty_string(String::new()), Err("must not be empty"));
}
