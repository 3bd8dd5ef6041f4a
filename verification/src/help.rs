//! Requests for help texts, outlines and resources.

use crate::error::{
    invalid_params, plain_error, refused, refuses, resource_not_found, McpError,
    RESOURCE_NOT_FOUND,
};
use crate::search_command::{budget_of, output_budget};
use crate::text::same_text;
use vstd::prelude::*;

verus! {

/// A request for the help on a member of the platform: by its name, or by the id that a search
/// gave for it.
#[derive(Debug, Clone, PartialEq, Eq)]
pub enum SyntaxHelpParams {
    ByName { name: String, owner_type: Option<String>, max_output_tokens: Option<usize> },
    ByReferenceId { reference_id: String, max_output_tokens: Option<usize> },
}

/// What a request for help looks up.
#[derive(Debug, Clone, PartialEq, Eq)]
pub enum SyntaxHelpRequest {
    ByName { name: String, owner_type: Option<String>, max_output_tokens: usize },
    ByReferenceId { reference_id: String, max_output_tokens: usize },
}

/// What a request for help looks up.
pub fn syntax_help(p: SyntaxHelpParams) -> (request: SyntaxHelpRequest)
    ensures
        request == match p {
            SyntaxHelpParams::ByName { name, owner_type, max_output_tokens } => {
                SyntaxHelpRequest::ByName {
                    name,
                    owner_type,
                    max_output_tokens: budget_of(max_output_tokens),
                }
            },
            SyntaxHelpParams::ByReferenceId { reference_id, max_output_tokens } => {
                SyntaxHelpRequest::ByReferenceId {
                    reference_id,
                    max_output_tokens: budget_of(max_output_tokens),
                }
            },
        },
{
    match p {
        SyntaxHelpParams::ByName { name, owner_type, max_output_tokens } => {
            SyntaxHelpRequest::ByName {
                name,
                owner_type,
                max_output_tokens: output_budget(max_output_tokens),
            }
        },
        SyntaxHelpParams::ByReferenceId { reference_id, max_output_tokens } => {
            SyntaxHelpRequest::ByReferenceId {
                reference_id,
                max_output_tokens: output_budget(max_output_tokens),
            }
        },
    }
}

/// A request for the outline of a file.
#[derive(Debug, Clone, PartialEq, Eq)]
pub struct OutlineParams {
    pub path: String,
    pub root_id: Option<String>,
    pub mode: Option<String>,
    pub max_output_tokens: Option<usize>,
}

/// The outline of a file of a workspace.
#[derive(Debug, Clone, PartialEq, Eq)]
pub struct OutlineRequest {
    pub workspace_root: String,
    pub path: String,
    pub root_id: Option<String>,
    pub mode: Option<String>,
    pub max_output_tokens: usize,
}

/// The outline that a request asks for; without a workspace there is none.
pub fn outline(p: OutlineParams, workspace_root: Option<String>) -> (result: Result<
    OutlineRequest,
    McpError,
>)
    ensures
        match workspace_root {
            Some(workspace_root) => result == Ok::<OutlineRequest, McpError>(
                OutlineRequest {
                    workspace_root,
                    path: p.path,
                    root_id: p.root_id,
                    mode: p.mode,
                    max_output_tokens: budget_of(p.max_output_tokens),
                },
            ),
            None => refused(result, "`outline` is only available in the workspace profile"@),
        },
{
    match workspace_root {
        Some(workspace_root) => Ok(
            OutlineRequest {
                workspace_root,
                path: p.path,
                root_id: p.root_id,
                mode: p.mode,
                max_output_tokens: output_budget(p.max_output_tokens),
            },
        ),
        None => Err(
            invalid_params("`outline` is only available in the workspace profile".to_owned()),
        ),
    }
}

/// Decides whether a resource can be read: there is one, under `contract_uri`.
pub fn read_resource(uri: &str, contract_uri: &str) -> (result: Result<(), McpError>)
    ensures
        uri@ == contract_uri@ ==> result == Ok::<(), McpError>(()),
        uri@ != contract_uri@ ==> (result matches Err(error) && error@ == plain_error(
            RESOURCE_NOT_FOUND,
            "Unknown resource '"@ + uri@ + "'"@,
        )),
{
    if same_text(uri, contract_uri) {
        Ok(())
    } else {
        let mut text: String = "Unknown resource '".to_owned();
        text.append(uri);
        text.append("'");
        Err(resource_not_found(text))
    }
}

/// Help is looked up by what the request names, whole, and takes the tokens that it asks for, or
/// 6000.
pub proof fn help_is_looked_up_by_what_is_named(p: SyntaxHelpParams, request: SyntaxHelpRequest)
    requires
        call_ensures(syntax_help, (p,), request),
    ensures
        p matches SyntaxHelpParams::ByName { name, owner_type, max_output_tokens } ==> (request
            matches SyntaxHelpRequest::ByName {
            name: looked_up,
            owner_type: of_type,
            max_output_tokens: tokens,
        } && looked_up == name && of_type == owner_type && (max_output_tokens matches Some(asked)
            ==> tokens == asked) && (max_output_tokens is None ==> tokens == 6000)),
        p matches SyntaxHelpParams::ByReferenceId { reference_id, max_output_tokens } ==> (request
            matches SyntaxHelpRequest::ByReferenceId {
            reference_id: looked_up,
            max_output_tokens: tokens,
        } && looked_up == reference_id && (max_output_tokens matches Some(asked) ==> tokens
            == asked) && (max_output_tokens is None ==> tokens == 6000)),
{
}

/// An outline is made of the file that the request names, in the workspace that there is, and is
/// refused exactly where there is none.
pub proof fn an_outline_needs_a_workspace(
    p: OutlineParams,
    root: Option<String>,
    result: Result<OutlineRequest, McpError>,
)
    requires
        call_ensures(outline, (p, root), result),
    ensures
        result is Ok <==> root is Some,
        result matches Ok(request) ==> {
            &&& Some(request.workspace_root) == root
            &&& request.path == p.path
            &&& request.root_id == p.root_id
            &&& request.mode == p.mode
            &&& p.max_output_tokens matches Some(asked) ==> request.max_output_tokens == asked
            &&& p.max_output_tokens is None ==> request.max_output_tokens == 6000
        },
        result matches Err(error) ==> refuses(
            error,
            "`outline` is only available in the workspace profile"@,
        ),
{
}

/// One resource can be read, by its whole address; any other is not found, and is named.
pub proof fn one_resource_can_be_read(uri: &str, contract_uri: &str, result: Result<(), McpError>)
    requires
        call_ensures(read_resource, (uri, contract_uri), result),
    ensures
        result is Ok <==> uri@ == contract_uri@,
        result matches Err(error) ==> error.code == -32002 && error.message@
            == "Unknown resource '"@ + uri@ + "'"@ && error.reason_code is None,
{
}

} // verus!
