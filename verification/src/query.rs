//! Requests of the tools that talk to a running infobase: queries, code and its event log.

use crate::error::{missing_field, refused, refuses, require, McpError};
use crate::search_command::{budget_of, output_budget};
use crate::text::same_text;
use vstd::prelude::*;

verus! {

/// A request about a query. `P` holds the parameters of the query.
#[derive(Debug, Clone, PartialEq, Eq)]
pub struct QueryParams<P> {
    pub action: String,
    pub query: Option<String>,
    pub limit: Option<u32>,
    pub parameters: Option<P>,
    pub connection: Option<String>,
    pub root_id: Option<String>,
    pub max_output_tokens: Option<usize>,
}

/// What a request about a query does.
#[derive(Debug, Clone, PartialEq, Eq)]
pub enum QueryRoute<P> {
    Schema,
    Validate {
        query: String,
        root_id: Option<String>,
        connection: Option<String>,
        max_output_tokens: usize,
    },
    Execute {
        query: String,
        limit: Option<u32>,
        parameters: Option<P>,
        connection: Option<String>,
        max_output_tokens: usize,
    },
    /// The contract of the tool knows no such action.
    UnknownAction(String),
}

/// What is done with a query.
#[derive(Debug, Clone, Copy, PartialEq, Eq, Structural)]
pub enum QueryAction {
    Schema,
    Validate,
    Execute,
    Unknown,
}

/// The action that a text names.
pub open spec fn query_action_of(action: Seq<char>) -> QueryAction {
    if action == "schema"@ {
        QueryAction::Schema
    } else if action == "validate"@ {
        QueryAction::Validate
    } else if action == "execute"@ {
        QueryAction::Execute
    } else {
        QueryAction::Unknown
    }
}

/// The action that a text names.
pub fn query_action(action: &str) -> (named: QueryAction)
    ensures
        named == query_action_of(action@),
{
    if same_text(action, "schema") {
        QueryAction::Schema
    } else if same_text(action, "validate") {
        QueryAction::Validate
    } else if same_text(action, "execute") {
        QueryAction::Execute
    } else {
        QueryAction::Unknown
    }
}

/// Routes a request about a query.
pub fn query<P>(p: QueryParams<P>) -> (result: Result<QueryRoute<P>, McpError>)
    ensures
        match query_action_of(p.action@) {
            QueryAction::Schema => result == Ok::<QueryRoute<P>, McpError>(QueryRoute::Schema),
            QueryAction::Validate => match p.query {
                Some(query) => result == Ok::<QueryRoute<P>, McpError>(
                    QueryRoute::Validate {
                        query,
                        root_id: p.root_id,
                        connection: p.connection,
                        max_output_tokens: budget_of(p.max_output_tokens),
                    },
                ),
                None => refused(result, missing_field("query"@, "validate"@)),
            },
            QueryAction::Execute => match p.query {
                Some(query) => result == Ok::<QueryRoute<P>, McpError>(
                    QueryRoute::Execute {
                        query,
                        limit: p.limit,
                        parameters: p.parameters,
                        connection: p.connection,
                        max_output_tokens: budget_of(p.max_output_tokens),
                    },
                ),
                None => refused(result, missing_field("query"@, "execute"@)),
            },
            QueryAction::Unknown => result == Ok::<QueryRoute<P>, McpError>(
                QueryRoute::UnknownAction(p.action),
            ),
        },
{
    let max_output_tokens: usize = output_budget(p.max_output_tokens);
    match query_action(p.action.as_str()) {
        QueryAction::Schema => Ok(QueryRoute::Schema),
        QueryAction::Validate => match require(p.query, "query", "validate") {
            Ok(query) => Ok(
                QueryRoute::Validate {
                    query,
                    root_id: p.root_id,
                    connection: p.connection,
                    max_output_tokens,
                },
            ),
            Err(error) => Err(error),
        },
        QueryAction::Execute => match require(p.query, "query", "execute") {
            Ok(query) => Ok(
                QueryRoute::Execute {
                    query,
                    limit: p.limit,
                    parameters: p.parameters,
                    connection: p.connection,
                    max_output_tokens,
                },
            ),
            Err(error) => Err(error),
        },
        QueryAction::Unknown => Ok(QueryRoute::UnknownAction(p.action)),
    }
}

/// A request about code.
#[derive(Debug, Clone, PartialEq, Eq)]
pub struct ExecuteParams {
    pub action: String,
    pub code: String,
    pub connection: Option<String>,
    pub max_output_tokens: Option<usize>,
}

/// What is done with code.
#[derive(Debug, Clone, Copy, PartialEq, Eq, Structural)]
pub enum ExecuteAction {
    Check,
    Run,
    Eval,
}

/// What a request about code does.
#[derive(Debug, Clone, PartialEq, Eq)]
pub enum ExecuteRoute {
    Do {
        action: ExecuteAction,
        code: String,
        connection: Option<String>,
        max_output_tokens: usize,
    },
    /// The contract of the tool knows no such action.
    UnknownAction(String),
}

/// The action that a text names.
pub open spec fn execute_action_of(action: Seq<char>) -> Option<ExecuteAction> {
    if action == "check"@ {
        Some(ExecuteAction::Check)
    } else if action == "run"@ {
        Some(ExecuteAction::Run)
    } else if action == "eval"@ {
        Some(ExecuteAction::Eval)
    } else {
        None
    }
}

/// Routes a request about code.
pub fn execute(p: ExecuteParams) -> (route: ExecuteRoute)
    ensures
        route == match execute_action_of(p.action@) {
            Some(action) => ExecuteRoute::Do {
                action,
                code: p.code,
                connection: p.connection,
                max_output_tokens: budget_of(p.max_output_tokens),
            },
            None => ExecuteRoute::UnknownAction(p.action),
        },
{
    let action: ExecuteAction = if same_text(p.action.as_str(), "check") {
        ExecuteAction::Check
    } else if same_text(p.action.as_str(), "run") {
        ExecuteAction::Run
    } else if same_text(p.action.as_str(), "eval") {
        ExecuteAction::Eval
    } else {
        return ExecuteRoute::UnknownAction(p.action);
    };
    ExecuteRoute::Do {
        action,
        code: p.code,
        connection: p.connection,
        max_output_tokens: output_budget(p.max_output_tokens),
    }
}

/// A request for the event log.
#[derive(Debug, Clone, PartialEq, Eq)]
pub struct EventLogParams {
    pub date_from: Option<String>,
    pub date_to: Option<String>,
    pub level: Option<String>,
    pub user: Option<String>,
    pub event: Option<String>,
    pub metadata: Option<String>,
    pub contains: Option<String>,
    pub limit: Option<u32>,
    pub connection: Option<String>,
    pub max_output_tokens: Option<usize>,
}

/// What is asked of the event log.
#[derive(Debug, Clone, PartialEq, Eq)]
pub struct EventLogQuery {
    pub date_from: Option<String>,
    pub date_to: Option<String>,
    pub level: Option<String>,
    pub user: Option<String>,
    pub event: Option<String>,
    pub metadata: Option<String>,
    pub contains: Option<String>,
    pub limit: Option<u32>,
    pub connection: Option<String>,
}

/// What is asked of the event log, and the tokens of the answer.
pub fn event_log(p: EventLogParams) -> (request: (EventLogQuery, usize))
    ensures
        request.0 == (EventLogQuery {
            date_from: p.date_from,
            date_to: p.date_to,
            level: p.level,
            user: p.user,
            event: p.event,
            metadata: p.metadata,
            contains: p.contains,
            limit: p.limit,
            connection: p.connection,
        }),
        request.1 == budget_of(p.max_output_tokens),
{
    let tokens: usize = output_budget(p.max_output_tokens);
    (
        EventLogQuery {
            date_from: p.date_from,
            date_to: p.date_to,
            level: p.level,
            user: p.user,
            event: p.event,
            metadata: p.metadata,
            contains: p.contains,
            limit: p.limit,
            connection: p.connection,
        },
        tokens,
    )
}

proof fn lemma_every_action_has_a_name_of_its_own()
    ensures
        query_action_of("schema"@) is Schema,
        query_action_of("validate"@) is Validate,
        query_action_of("execute"@) is Execute,
        execute_action_of("check"@) == Some(ExecuteAction::Check),
        execute_action_of("run"@) == Some(ExecuteAction::Run),
        execute_action_of("eval"@) == Some(ExecuteAction::Eval),
{
    reveal_strlit("schema");
    reveal_strlit("validate");
    reveal_strlit("execute");
    assert("schema"@.len() == 6);
    assert("validate"@.len() == 8);
    assert("execute"@.len() == 7);
    reveal_strlit("check");
    reveal_strlit("run");
    reveal_strlit("eval");
    assert("check"@.len() == 5);
    assert("run"@.len() == 3);
    assert("eval"@.len() == 4);
}

/// Every action has one name, and every other text names none.
pub proof fn every_action_on_queries_has_one_name(action: &str, named: QueryAction)
    requires
        call_ensures(query_action, (action,), named),
    ensures
        named is Schema <==> action@ == "schema"@,
        named is Validate <==> action@ == "validate"@,
        named is Execute <==> action@ == "execute"@,
{
    lemma_every_action_has_a_name_of_its_own();
}

/// A query goes where its action says, with all that the request says of it, and takes the tokens
/// that it asks for, or 6000. It is refused exactly where there is no query to check or to run.
pub proof fn a_query_keeps_what_its_request_says<P>(
    p: QueryParams<P>,
    result: Result<QueryRoute<P>, McpError>,
)
    requires
        call_ensures(query::<P>, (p,), result),
    ensures
        result is Err <==> p.query is None && (p.action@ == "validate"@ || p.action@ == "execute"@),
        result is Err ==> refuses(
            result->Err_0,
            "'"@ + "query"@ + "' is required for action '"@ + p.action@ + "'"@,
        ),
        result matches Ok(route) ==> {
            &&& route is Schema <==> p.action@ == "schema"@
            &&& route is Validate <==> p.action@ == "validate"@
            &&& route is Execute <==> p.action@ == "execute"@
            &&& route matches QueryRoute::UnknownAction(action) ==> action == p.action
            &&& route matches QueryRoute::Validate {
                query,
                root_id,
                connection,
                max_output_tokens,
            } ==> {
                &&& Some(query) == p.query
                &&& root_id == p.root_id
                &&& connection == p.connection
                &&& p.max_output_tokens matches Some(asked) ==> max_output_tokens == asked
                &&& p.max_output_tokens is None ==> max_output_tokens == 6000
            }
            &&& route matches QueryRoute::Execute {
                query,
                limit,
                parameters,
                connection,
                max_output_tokens,
            } ==> {
                &&& Some(query) == p.query
                &&& limit == p.limit
                &&& parameters == p.parameters
                &&& connection == p.connection
                &&& p.max_output_tokens matches Some(asked) ==> max_output_tokens == asked
                &&& p.max_output_tokens is None ==> max_output_tokens == 6000
            }
        },
{
    lemma_every_action_has_a_name_of_its_own();
}

/// Code is checked, run or evaluated exactly where the action says so, as it was sent and where it
/// was sent to, and every other action is told to be unknown.
pub proof fn code_is_done_what_its_action_says(p: ExecuteParams, route: ExecuteRoute)
    requires
        call_ensures(execute, (p,), route),
    ensures
        route matches ExecuteRoute::Do { action, code, connection, max_output_tokens } ==> {
            &&& action is Check <==> p.action@ == "check"@
            &&& action is Run <==> p.action@ == "run"@
            &&& action is Eval <==> p.action@ == "eval"@
            &&& code == p.code
            &&& connection == p.connection
            &&& p.max_output_tokens matches Some(asked) ==> max_output_tokens == asked
            &&& p.max_output_tokens is None ==> max_output_tokens == 6000
        },
        route is Do <==> p.action@ == "check"@ || p.action@ == "run"@ || p.action@ == "eval"@,
        route matches ExecuteRoute::UnknownAction(action) ==> action == p.action,
{
    lemma_every_action_has_a_name_of_its_own();
}

/// The event log is asked for exactly what the request says, and answers with the tokens that it
/// asks for, or 6000.
pub proof fn the_event_log_is_asked_what_the_request_says(
    p: EventLogParams,
    request: (EventLogQuery, usize),
)
    requires
        call_ensures(event_log, (p,), request),
    ensures
        request.0.date_from == p.date_from,
        request.0.date_to == p.date_to,
        request.0.level == p.level,
        request.0.user == p.user,
        request.0.event == p.event,
        request.0.metadata == p.metadata,
        request.0.contains == p.contains,
        request.0.limit == p.limit,
        request.0.connection == p.connection,
        p.max_output_tokens matches Some(asked) ==> request.1 == asked,
        p.max_output_tokens is None ==> request.1 == 6000,
{
}

} // verus!
