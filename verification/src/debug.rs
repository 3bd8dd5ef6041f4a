//! Requests of the debugger.

use crate::error::{missing_field, refused, refuses, require, McpError};
use crate::search_command::{budget_of, output_budget};
use crate::text::same_text;
use vstd::prelude::*;

verus! {

/// The port of a debug server where the request names none.
pub const DEFAULT_DEBUG_PORT: u16 = 1550;

/// The port of a debug server where the request names none.
pub fn default_debug_port() -> (port: u16)
    ensures
        port == DEFAULT_DEBUG_PORT,
{
    DEFAULT_DEBUG_PORT
}

/// A request to the debugger.
#[derive(Debug, Clone, PartialEq, Eq)]
pub struct DebugParams {
    pub action: String,
    pub host: Option<String>,
    pub port: Option<u16>,
    pub infobase: Option<String>,
    pub config_root: Option<String>,
    /// Names of extensions and their roots.
    pub extensions: Vec<(String, String)>,
    pub auto_attach: Vec<String>,
    pub module: Option<String>,
    pub line: Option<u32>,
    pub condition: Option<String>,
    pub direction: Option<String>,
    pub timeout_secs: Option<u64>,
    pub stack_level: Option<u32>,
    pub expression: Option<String>,
    pub max_output_tokens: Option<usize>,
}

/// What a request to the debugger does.
#[derive(Debug, Clone, PartialEq, Eq)]
pub enum DebugRoute {
    Attach {
        host: String,
        port: u16,
        infobase: String,
        config_root: Option<String>,
        extensions: Vec<(String, String)>,
        auto_attach: Vec<String>,
        max_output_tokens: usize,
    },
    Disconnect,
    SetBreakpoint { module: String, line: u32, condition: Option<String> },
    RemoveBreakpoint { module: String, line: u32 },
    Continue,
    Step { direction: String },
    WaitStop { timeout_secs: Option<u64>, max_output_tokens: usize },
    StackTrace { max_output_tokens: usize },
    Locals { stack_level: Option<u32>, max_output_tokens: usize },
    Eval { expression: String, stack_level: Option<u32>, max_output_tokens: usize },
    /// The contract of the tool knows no such action.
    UnknownAction(String),
}

/// What is asked of the debugger.
#[derive(Debug, Clone, Copy, PartialEq, Eq, Structural)]
pub enum DebugAction {
    Attach,
    Disconnect,
    SetBreakpoint,
    RemoveBreakpoint,
    Continue,
    Step,
    WaitStop,
    StackTrace,
    Locals,
    Eval,
    Unknown,
}

/// The action that a text names.
pub open spec fn debug_action_of(action: Seq<char>) -> DebugAction {
    if action == "attach"@ {
        DebugAction::Attach
    } else if action == "disconnect"@ {
        DebugAction::Disconnect
    } else if action == "set_breakpoint"@ {
        DebugAction::SetBreakpoint
    } else if action == "remove_breakpoint"@ {
        DebugAction::RemoveBreakpoint
    } else if action == "continue"@ {
        DebugAction::Continue
    } else if action == "step"@ {
        DebugAction::Step
    } else if action == "wait_stop"@ {
        DebugAction::WaitStop
    } else if action == "stack_trace"@ {
        DebugAction::StackTrace
    } else if action == "locals"@ {
        DebugAction::Locals
    } else if action == "eval"@ {
        DebugAction::Eval
    } else {
        DebugAction::Unknown
    }
}

/// The action that a text names.
pub fn debug_action(action: &str) -> (named: DebugAction)
    ensures
        named == debug_action_of(action@),
{
    if same_text(action, "attach") {
        DebugAction::Attach
    } else if same_text(action, "disconnect") {
        DebugAction::Disconnect
    } else if same_text(action, "set_breakpoint") {
        DebugAction::SetBreakpoint
    } else if same_text(action, "remove_breakpoint") {
        DebugAction::RemoveBreakpoint
    } else if same_text(action, "continue") {
        DebugAction::Continue
    } else if same_text(action, "step") {
        DebugAction::Step
    } else if same_text(action, "wait_stop") {
        DebugAction::WaitStop
    } else if same_text(action, "stack_trace") {
        DebugAction::StackTrace
    } else if same_text(action, "locals") {
        DebugAction::Locals
    } else if same_text(action, "eval") {
        DebugAction::Eval
    } else {
        DebugAction::Unknown
    }
}

/// The request was routed here.
pub open spec fn goes_to(result: Result<DebugRoute, McpError>, route: DebugRoute) -> bool {
    result == Ok::<DebugRoute, McpError>(route)
}

/// The field that a request lacks first, in the order in which they are asked for.
pub open spec fn lacks(p: DebugParams) -> Option<Seq<char>> {
    match debug_action_of(p.action@) {
        DebugAction::Attach => if p.host is None {
            Some("host"@)
        } else if p.infobase is None {
            Some("infobase"@)
        } else {
            None
        },
        DebugAction::SetBreakpoint => if p.module is None {
            Some("module"@)
        } else if p.line is None {
            Some("line"@)
        } else {
            None
        },
        DebugAction::RemoveBreakpoint => if p.module is None {
            Some("module"@)
        } else if p.line is None {
            Some("line"@)
        } else {
            None
        },
        DebugAction::Step => if p.direction is None {
            Some("direction"@)
        } else {
            None
        },
        DebugAction::Eval => if p.expression is None {
            Some("expression"@)
        } else {
            None
        },
        _ => None,
    }
}

/// The name of an action, as an error gives it.
pub open spec fn debug_action_name(action: DebugAction) -> Seq<char> {
    match action {
        DebugAction::Attach => "attach"@,
        DebugAction::SetBreakpoint => "set_breakpoint"@,
        DebugAction::RemoveBreakpoint => "remove_breakpoint"@,
        DebugAction::Step => "step"@,
        DebugAction::Eval => "eval"@,
        _ => Seq::empty(),
    }
}

/// The route of a request that lacks nothing.
pub open spec fn debug_route(p: DebugParams) -> DebugRoute {
    let max_output_tokens = budget_of(p.max_output_tokens);
    match debug_action_of(p.action@) {
        DebugAction::Attach => DebugRoute::Attach {
            host: p.host->Some_0,
            port: match p.port {
                Some(port) => port,
                None => DEFAULT_DEBUG_PORT,
            },
            infobase: p.infobase->Some_0,
            config_root: p.config_root,
            extensions: p.extensions,
            auto_attach: p.auto_attach,
            max_output_tokens,
        },
        DebugAction::Disconnect => DebugRoute::Disconnect,
        DebugAction::SetBreakpoint => DebugRoute::SetBreakpoint {
            module: p.module->Some_0,
            line: p.line->Some_0,
            condition: p.condition,
        },
        DebugAction::RemoveBreakpoint => DebugRoute::RemoveBreakpoint {
            module: p.module->Some_0,
            line: p.line->Some_0,
        },
        DebugAction::Continue => DebugRoute::Continue,
        DebugAction::Step => DebugRoute::Step { direction: p.direction->Some_0 },
        DebugAction::WaitStop => DebugRoute::WaitStop {
            timeout_secs: p.timeout_secs,
            max_output_tokens,
        },
        DebugAction::StackTrace => DebugRoute::StackTrace { max_output_tokens },
        DebugAction::Locals => DebugRoute::Locals { stack_level: p.stack_level, max_output_tokens },
        DebugAction::Eval => DebugRoute::Eval {
            expression: p.expression->Some_0,
            stack_level: p.stack_level,
            max_output_tokens,
        },
        DebugAction::Unknown => DebugRoute::UnknownAction(p.action),
    }
}

/// Routes a request to the debugger: the first field that its action lacks is named, and what
/// the action does not use is passed over.
pub fn debug(p: DebugParams) -> (result: Result<DebugRoute, McpError>)
    ensures
        match lacks(p) {
            Some(field) => refused(
                result,
                missing_field(field, debug_action_name(debug_action_of(p.action@))),
            ),
            None => goes_to(result, debug_route(p)),
        },
{
    let max_output_tokens: usize = output_budget(p.max_output_tokens);
    match debug_action(p.action.as_str()) {
        DebugAction::Attach => {
            let port: u16 = match p.port {
                Some(port) => port,
                None => default_debug_port(),
            };
            match require(p.host, "host", "attach") {
                Ok(host) => match require(p.infobase, "infobase", "attach") {
                    Ok(infobase) => Ok(
                        DebugRoute::Attach {
                            host,
                            port,
                            infobase,
                            config_root: p.config_root,
                            extensions: p.extensions,
                            auto_attach: p.auto_attach,
                            max_output_tokens,
                        },
                    ),
                    Err(error) => Err(error),
                },
                Err(error) => Err(error),
            }
        },
        DebugAction::Disconnect => Ok(DebugRoute::Disconnect),
        DebugAction::SetBreakpoint => match require(p.module, "module", "set_breakpoint") {
            Ok(module) => match require(p.line, "line", "set_breakpoint") {
                Ok(line) => Ok(
                    DebugRoute::SetBreakpoint { module, line, condition: p.condition },
                ),
                Err(error) => Err(error),
            },
            Err(error) => Err(error),
        },
        DebugAction::RemoveBreakpoint => match require(p.module, "module", "remove_breakpoint") {
            Ok(module) => match require(p.line, "line", "remove_breakpoint") {
                Ok(line) => Ok(DebugRoute::RemoveBreakpoint { module, line }),
                Err(error) => Err(error),
            },
            Err(error) => Err(error),
        },
        DebugAction::Continue => Ok(DebugRoute::Continue),
        DebugAction::Step => match require(p.direction, "direction", "step") {
            Ok(direction) => Ok(DebugRoute::Step { direction }),
            Err(error) => Err(error),
        },
        DebugAction::WaitStop => Ok(
            DebugRoute::WaitStop { timeout_secs: p.timeout_secs, max_output_tokens },
        ),
        DebugAction::StackTrace => Ok(DebugRoute::StackTrace { max_output_tokens }),
        DebugAction::Locals => Ok(
            DebugRoute::Locals { stack_level: p.stack_level, max_output_tokens },
        ),
        DebugAction::Eval => match require(p.expression, "expression", "eval") {
            Ok(expression) => Ok(
                DebugRoute::Eval { expression, stack_level: p.stack_level, max_output_tokens },
            ),
            Err(error) => Err(error),
        },
        DebugAction::Unknown => Ok(DebugRoute::UnknownAction(p.action)),
    }
}

proof fn lemma_every_action_has_a_name_of_its_own()
    ensures
        debug_action_of("attach"@) is Attach,
        debug_action_of("disconnect"@) is Disconnect,
        debug_action_of("set_breakpoint"@) is SetBreakpoint,
        debug_action_of("remove_breakpoint"@) is RemoveBreakpoint,
        debug_action_of("continue"@) is Continue,
        debug_action_of("step"@) is Step,
        debug_action_of("wait_stop"@) is WaitStop,
        debug_action_of("stack_trace"@) is StackTrace,
        debug_action_of("locals"@) is Locals,
        debug_action_of("eval"@) is Eval,
{
    reveal_strlit("attach");
    reveal_strlit("disconnect");
    reveal_strlit("set_breakpoint");
    reveal_strlit("remove_breakpoint");
    reveal_strlit("continue");
    reveal_strlit("step");
    reveal_strlit("wait_stop");
    reveal_strlit("stack_trace");
    reveal_strlit("locals");
    reveal_strlit("eval");
    assert("attach"@.len() == 6);
    assert("disconnect"@.len() == 10);
    assert("set_breakpoint"@.len() == 14);
    assert("remove_breakpoint"@.len() == 17);
    assert("continue"@.len() == 8);
    assert("step"@.len() == 4);
    assert("wait_stop"@.len() == 9);
    assert("stack_trace"@.len() == 11);
    assert("locals"@.len() == 6);
    assert("eval"@.len() == 4);
    assert("attach"@[0] != "locals"@[0]);
    assert("step"@[0] != "eval"@[0]);
}

/// Every action has one name, and every other text names none.
pub proof fn every_action_of_the_debugger_has_one_name(action: &str, named: DebugAction)
    requires
        call_ensures(debug_action, (action,), named),
    ensures
        named is Attach <==> action@ == "attach"@,
        named is Disconnect <==> action@ == "disconnect"@,
        named is SetBreakpoint <==> action@ == "set_breakpoint"@,
        named is RemoveBreakpoint <==> action@ == "remove_breakpoint"@,
        named is Continue <==> action@ == "continue"@,
        named is Step <==> action@ == "step"@,
        named is WaitStop <==> action@ == "wait_stop"@,
        named is StackTrace <==> action@ == "stack_trace"@,
        named is Locals <==> action@ == "locals"@,
        named is Eval <==> action@ == "eval"@,
{
    lemma_every_action_has_a_name_of_its_own();
}

/// A request is refused exactly where its action cannot do without a field that it lacks. The error
/// names the action and the first field that is missing.
pub proof fn a_request_to_the_debugger_is_refused_by_name(
    p: DebugParams,
    result: Result<DebugRoute, McpError>,
)
    requires
        call_ensures(debug, (p,), result),
    ensures
        ({
            let attach = p.action@ == "attach"@;
            let breakpoint = p.action@ == "set_breakpoint"@ || p.action@ == "remove_breakpoint"@;
            let step = p.action@ == "step"@;
            let eval = p.action@ == "eval"@;
            &&& result is Err <==> {
                ||| attach && (p.host is None || p.infobase is None)
                ||| breakpoint && (p.module is None || p.line is None)
                ||| step && p.direction is None
                ||| eval && p.expression is None
            }
            &&& result matches Err(error) ==> {
                let field = if attach && p.host is None {
                    "host"@
                } else if attach {
                    "infobase"@
                } else if breakpoint && p.module is None {
                    "module"@
                } else if breakpoint {
                    "line"@
                } else if step {
                    "direction"@
                } else {
                    "expression"@
                };
                refuses(error, "'"@ + field + "' is required for action '"@ + p.action@ + "'"@)
            }
        }),
{
    lemma_every_action_has_a_name_of_its_own();
}

/// A request that is let through goes where its action says and keeps all that the action uses. The
/// port is 1550, and 6000 tokens are spent, only where the request says nothing of them.
pub proof fn a_request_to_the_debugger_keeps_what_it_says(
    p: DebugParams,
    result: Result<DebugRoute, McpError>,
)
    requires
        call_ensures(debug, (p,), result),
        result is Ok,
    ensures
        ({
            let route = result->Ok_0;
            &&& route is Attach <==> p.action@ == "attach"@
            &&& route is Disconnect <==> p.action@ == "disconnect"@
            &&& route is SetBreakpoint <==> p.action@ == "set_breakpoint"@
            &&& route is RemoveBreakpoint <==> p.action@ == "remove_breakpoint"@
            &&& route is Continue <==> p.action@ == "continue"@
            &&& route is Step <==> p.action@ == "step"@
            &&& route is WaitStop <==> p.action@ == "wait_stop"@
            &&& route is StackTrace <==> p.action@ == "stack_trace"@
            &&& route is Locals <==> p.action@ == "locals"@
            &&& route is Eval <==> p.action@ == "eval"@
            &&& route matches DebugRoute::UnknownAction(action) ==> action == p.action
            &&& route matches DebugRoute::Attach {
                host,
                port,
                infobase,
                config_root,
                extensions,
                auto_attach,
                max_output_tokens,
            } ==> {
                &&& Some(host) == p.host
                &&& Some(infobase) == p.infobase
                &&& p.port matches Some(asked) ==> port == asked
                &&& p.port is None ==> port == 1550
                &&& config_root == p.config_root
                &&& extensions == p.extensions
                &&& auto_attach == p.auto_attach
                &&& p.max_output_tokens matches Some(asked) ==> max_output_tokens == asked
                &&& p.max_output_tokens is None ==> max_output_tokens == 6000
            }
            &&& route matches DebugRoute::SetBreakpoint { module, line, condition } ==> Some(module)
                == p.module && Some(line) == p.line && condition == p.condition
            &&& route matches DebugRoute::RemoveBreakpoint { module, line } ==> Some(module)
                == p.module && Some(line) == p.line
            &&& route matches DebugRoute::Step { direction } ==> Some(direction) == p.direction
            &&& route matches DebugRoute::WaitStop { timeout_secs, max_output_tokens }
                ==> timeout_secs == p.timeout_secs && (p.max_output_tokens matches Some(asked)
                ==> max_output_tokens == asked) && (p.max_output_tokens is None
                ==> max_output_tokens == 6000)
            &&& route matches DebugRoute::StackTrace { max_output_tokens } ==> (p.max_output_tokens
                matches Some(asked) ==> max_output_tokens == asked) && (p.max_output_tokens is None
                ==> max_output_tokens == 6000)
            &&& route matches DebugRoute::Locals { stack_level, max_output_tokens } ==> stack_level
                == p.stack_level && (p.max_output_tokens matches Some(asked) ==> max_output_tokens
                == asked) && (p.max_output_tokens is None ==> max_output_tokens == 6000)
            &&& route matches DebugRoute::Eval { expression, stack_level, max_output_tokens }
                ==> Some(expression) == p.expression && stack_level == p.stack_level && (
            p.max_output_tokens matches Some(asked) ==> max_output_tokens == asked) && (
            p.max_output_tokens is None ==> max_output_tokens == 6000)
        }),
{
    lemma_every_action_has_a_name_of_its_own();
}

/// The debugger listens where nothing is said on port 1550.
pub proof fn the_debugger_has_a_port(port: u16)
    requires
        call_ensures(default_debug_port, (), port),
    ensures
        port == 1550,
{
}

} // verus!
