//! Protocol errors that a tool call answers with.

use vstd::prelude::*;

verus! {

/// JSON-RPC code of a request whose parameters are refused.
pub const INVALID_PARAMS: i32 = -32602;

/// JSON-RPC code of a request that failed inside the server.
pub const INTERNAL_ERROR: i32 = -32603;

/// Code of a resource that the server does not have.
pub const RESOURCE_NOT_FOUND: i32 = -32002;

/// An error of the protocol: its code, its message and the machine-readable reason that
/// travels in its data, where there is one.
#[derive(Debug, Clone, PartialEq, Eq)]
pub struct McpError {
    pub code: i32,
    pub message: String,
    pub reason_code: Option<String>,
}

/// The error, with its texts as sequences of characters.
pub struct ErrorView {
    pub code: i32,
    pub message: Seq<char>,
    pub reason_code: Option<Seq<char>>,
}

impl View for McpError {
    type V = ErrorView;

    open spec fn view(&self) -> ErrorView {
        ErrorView {
            code: self.code,
            message: self.message@,
            reason_code: match self.reason_code {
                Some(reason) => Some(reason@),
                None => None,
            },
        }
    }
}

/// An error of this code and message, without a reason code.
pub open spec fn plain_error(code: i32, message: Seq<char>) -> ErrorView {
    ErrorView { code, message, reason_code: None }
}

impl McpError {
    /// The error has this code and message, and no reason code.
    pub open spec fn says(&self, code: i32, message: Seq<char>) -> bool {
        self@ == plain_error(code, message)
    }
}

/// `result` refuses the parameters with `message`.
pub open spec fn refused<T>(result: Result<T, McpError>, message: Seq<char>) -> bool {
    result is Err && result->Err_0.says(INVALID_PARAMS, message)
}

/// `result` reports an internal error with `message`.
pub open spec fn broken<T>(result: Result<T, McpError>, message: Seq<char>) -> bool {
    result is Err && result->Err_0.says(INTERNAL_ERROR, message)
}

/// `rmcp::ErrorData::invalid_params` without data: an error with the code for invalid
/// parameters and the given message.
#[verifier::external_body]
pub(crate) fn invalid_params(message: String) -> (error: McpError)
    ensures
        error.says(INVALID_PARAMS, message@),
{
    let data = rmcp::ErrorData::invalid_params(message, None);
    McpError { code: data.code.0, message: data.message.into_owned(), reason_code: None }
}

/// `rmcp::ErrorData::internal_error` without data: an error with the code for an internal
/// error and the given message.
#[verifier::external_body]
pub(crate) fn internal_error(message: String) -> (error: McpError)
    ensures
        error.says(INTERNAL_ERROR, message@),
{
    let data = rmcp::ErrorData::internal_error(message, None);
    McpError { code: data.code.0, message: data.message.into_owned(), reason_code: None }
}

/// `rmcp::ErrorData::resource_not_found` without data: an error with the code for an unknown
/// resource and the given message.
#[verifier::external_body]
pub(crate) fn resource_not_found(message: String) -> (error: McpError)
    ensures
        error.says(RESOURCE_NOT_FOUND, message@),
{
    let data = rmcp::ErrorData::resource_not_found(message, None);
    McpError { code: data.code.0, message: data.message.into_owned(), reason_code: None }
}

/// The error of an argument that cannot be understood; the text says why.
pub fn argument_error(text: String) -> (error: McpError)
    ensures
        error.says(INVALID_PARAMS, text@),
{
    invalid_params(text)
}

/// The error of work that was handed to another thread and did not come back.
pub fn task_error(detail: &str) -> (error: McpError)
    ensures
        error.says(INTERNAL_ERROR, "Task error: "@ + detail@),
{
    let mut message: String = "Task error: ".to_owned();
    message.append(detail);
    internal_error(message)
}

/// The message that a missing field of an action is answered with.
pub open spec fn missing_field(field: Seq<char>, action: Seq<char>) -> Seq<char> {
    "'"@ + field + "' is required for action '"@ + action + "'"@
}

/// The value of a field that `action` cannot do without.
pub fn require<T>(val: Option<T>, field: &str, action: &str) -> (result: Result<T, McpError>)
    ensures
        val matches Some(value) ==> result == Ok::<T, McpError>(value),
        val is None ==> refused(result, missing_field(field@, action@)),
{
    match val {
        Some(value) => Ok(value),
        None => {
            let mut message: String = "'".to_owned();
            message.append(field);
            message.append("' is required for action '");
            message.append(action);
            message.append("'");
            Err(invalid_params(message))
        },
    }
}

/// The error refuses the parameters and says this, without a reason code.
pub open spec fn refuses(error: McpError, text: Seq<char>) -> bool {
    error.code == -32602 && error.message@ == text && error.reason_code is None
}

/// The error is of the server itself and says this, without a reason code.
pub open spec fn breaks(error: McpError, text: Seq<char>) -> bool {
    error.code == -32603 && error.message@ == text && error.reason_code is None
}

/// Two errors are the same to whoever reads them.
pub open spec fn same_error(a: McpError, b: McpError) -> bool {
    &&& a.code == b.code
    &&& a.message@ == b.message@
    &&& a.reason_code is Some <==> b.reason_code is Some
    &&& a.reason_code is Some ==> a.reason_code->Some_0@ == b.reason_code->Some_0@
}

/// A field that is there is handed on as it is. One that is missing is refused by its own name
/// and the name of the action, whatever the two are.
pub proof fn a_missing_field_is_refused_by_name<T>(
    val: Option<T>,
    field: &str,
    action: &str,
    result: Result<T, McpError>,
)
    requires
        call_ensures(require::<T>, (val, field, action), result),
    ensures
        val is Some <==> result is Ok,
        result is Ok ==> val == Some(result->Ok_0),
        result is Err ==> refuses(
            result->Err_0,
            "'"@ + field@ + "' is required for action '"@ + action@ + "'"@,
        ),
{
}

/// What cannot be understood is the fault of the request, and what did not come back is the
/// fault of the server. Both say why.
pub proof fn an_error_says_whose_fault_it_is(
    text: String,
    detail: &str,
    argument: McpError,
    task: McpError,
)
    requires
        call_ensures(argument_error, (text,), argument),
        call_ensures(task_error, (detail,), task),
    ensures
        refuses(argument, text@),
        breaks(task, "Task error: "@ + detail@),
{
}

} // verus!
