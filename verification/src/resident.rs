//! Answers of the tools that read the resident workspace.

use crate::error::{
    breaks, internal_error, invalid_params, plain_error, refuses, McpError, INTERNAL_ERROR,
    INVALID_PARAMS,
};
use crate::providers::{Freshness, ResidentOutcome};
use vstd::prelude::*;

verus! {

/// A tool that reads the resident workspace.
#[derive(Debug, Clone, Copy, PartialEq, Eq, Structural)]
pub enum ResidentTool {
    Metadata,
    References,
    DiagnosticsFile,
    DiagnosticsWorkspace,
}

impl ResidentTool {
    /// What the tool calls itself where there is no workspace.
    pub open spec fn subject(self) -> Seq<char> {
        match self {
            ResidentTool::Metadata => "metadata"@,
            ResidentTool::References => "references"@,
            ResidentTool::DiagnosticsFile => "diagnostics 'file'"@,
            ResidentTool::DiagnosticsWorkspace => "diagnostics 'workspace'"@,
        }
    }

    /// What the tool calls its database where that failed.
    pub open spec fn database(self) -> Seq<char> {
        match self {
            ResidentTool::Metadata => "metadata"@,
            ResidentTool::References => "references"@,
            ResidentTool::DiagnosticsFile => "diagnostics"@,
            ResidentTool::DiagnosticsWorkspace => "diagnostics"@,
        }
    }

    fn subject_text(self) -> (text: &'static str)
        ensures
            text@ == self.subject(),
    {
        match self {
            ResidentTool::Metadata => "metadata",
            ResidentTool::References => "references",
            ResidentTool::DiagnosticsFile => "diagnostics 'file'",
            ResidentTool::DiagnosticsWorkspace => "diagnostics 'workspace'",
        }
    }

    fn database_text(self) -> (text: &'static str)
        ensures
            text@ == self.database(),
    {
        match self {
            ResidentTool::Metadata => "metadata",
            ResidentTool::References => "references",
            ResidentTool::DiagnosticsFile => "diagnostics",
            ResidentTool::DiagnosticsWorkspace => "diagnostics",
        }
    }
}

/// What a tool answers with after its read.
#[derive(Debug, Clone, PartialEq, Eq)]
pub enum ResidentAnswer<A> {
    /// The read gave this, from a state of this age.
    Ready(A, Freshness),
    /// The workspace is still being loaded; ask again.
    Loading,
    Refused(McpError),
}

/// The answer of a tool, from what its read gave.
pub fn resident_answer<A>(tool: ResidentTool, outcome: ResidentOutcome<A>) -> (answer:
    ResidentAnswer<A>)
    ensures
        match outcome {
            ResidentOutcome::Ready(value, freshness) => answer == ResidentAnswer::Ready(
                value,
                freshness,
            ),
            ResidentOutcome::Loading => answer == ResidentAnswer::<A>::Loading,
            ResidentOutcome::Disabled => answer matches ResidentAnswer::Refused(error) && error@
                == plain_error(
                INVALID_PARAMS,
                tool.subject() + " is only available in the workspace profile"@,
            ),
            ResidentOutcome::Failed(message) => answer matches ResidentAnswer::Refused(error)
                && error@ == plain_error(
                INTERNAL_ERROR,
                tool.database() + " database: "@ + message@,
            ),
        },
{
    match outcome {
        ResidentOutcome::Ready(value, freshness) => ResidentAnswer::Ready(value, freshness),
        ResidentOutcome::Loading => ResidentAnswer::Loading,
        ResidentOutcome::Disabled => {
            let mut text: String = tool.subject_text().to_owned();
            text.append(" is only available in the workspace profile");
            ResidentAnswer::Refused(invalid_params(text))
        },
        ResidentOutcome::Failed(message) => {
            let mut text: String = tool.database_text().to_owned();
            text.append(" database: ");
            text.append(message.as_str());
            ResidentAnswer::Refused(internal_error(text))
        },
    }
}

/// What a read gave is the answer, with its age, and a workspace that is loading is said to be. A
/// tool without a workspace refuses by its own name, and one whose database failed says which and
/// why.
pub proof fn a_tool_answers_with_what_its_read_gave<A>(
    tool: ResidentTool,
    outcome: ResidentOutcome<A>,
    answer: ResidentAnswer<A>,
)
    requires
        call_ensures(resident_answer::<A>, (tool, outcome), answer),
    ensures
        outcome matches ResidentOutcome::Ready(value, freshness) ==> (answer
            matches ResidentAnswer::Ready(given, age) && given == value && age == freshness),
        outcome is Loading <==> answer is Loading,
        outcome is Disabled || outcome is Failed <==> answer is Refused,
        outcome is Disabled && tool is Metadata ==> refuses(
            answer->Refused_0,
            "metadata"@ + " is only available in the workspace profile"@,
        ),
        outcome is Disabled && tool is References ==> refuses(
            answer->Refused_0,
            "references"@ + " is only available in the workspace profile"@,
        ),
        outcome is Disabled && tool is DiagnosticsFile ==> refuses(
            answer->Refused_0,
            "diagnostics 'file'"@ + " is only available in the workspace profile"@,
        ),
        outcome is Disabled && tool is DiagnosticsWorkspace ==> refuses(
            answer->Refused_0,
            "diagnostics 'workspace'"@ + " is only available in the workspace profile"@,
        ),
        outcome matches ResidentOutcome::Failed(message) ==> {
            let database = if tool is Metadata {
                "metadata"@
            } else if tool is References {
                "references"@
            } else {
                "diagnostics"@
            };
            breaks(answer->Refused_0, database + " database: "@ + message@)
        },
{
}

} // verus!
