//! Requests for the findings of the analyzer.

use crate::error::{invalid_params, missing_field, refused, refuses, require, McpError};
use crate::loads::{nothing, resident_alone, Loads};
use crate::text::same_text;
use vstd::prelude::*;

verus! {

/// The fewest tokens that an answer with findings can be held to.
pub const MIN_OUTPUT_TOKENS: usize = 256;

/// The findings of a file, where the request sets no bound.
pub const DEFAULT_MAX_FINDINGS: usize = 200;

/// The files of a sweep, where the request sets no bound.
pub const DEFAULT_MAX_SWEEP_FILES: usize = 1000;

/// A request for findings.
#[derive(Debug, Clone, PartialEq, Eq)]
pub struct DiagnosticsParams {
    pub action: String,
    pub path: Option<String>,
    pub root_id: Option<String>,
    pub codes: Vec<String>,
    pub locale: Option<String>,
    pub min_severity: Option<String>,
    pub range_start: Option<usize>,
    pub range_end: Option<usize>,
    pub detail: Option<String>,
    pub max_findings: Option<usize>,
    pub max_files: Option<usize>,
    pub max_output_tokens: Option<usize>,
}

/// What is asked for.
#[derive(Debug, Clone, Copy, PartialEq, Eq, Structural)]
pub enum DiagnosticsAction {
    Schema,
    Catalog,
    Status,
    File,
    Workspace,
    Unknown,
}

/// The action that a text names.
pub open spec fn diagnostics_action_of(action: Seq<char>) -> DiagnosticsAction {
    if action == "schema"@ {
        DiagnosticsAction::Schema
    } else if action == "catalog"@ {
        DiagnosticsAction::Catalog
    } else if action == "status"@ {
        DiagnosticsAction::Status
    } else if action == "file"@ {
        DiagnosticsAction::File
    } else if action == "workspace"@ {
        DiagnosticsAction::Workspace
    } else {
        DiagnosticsAction::Unknown
    }
}

/// The action that a text names.
pub fn diagnostics_action(action: &str) -> (named: DiagnosticsAction)
    ensures
        named == diagnostics_action_of(action@),
{
    if same_text(action, "schema") {
        DiagnosticsAction::Schema
    } else if same_text(action, "catalog") {
        DiagnosticsAction::Catalog
    } else if same_text(action, "status") {
        DiagnosticsAction::Status
    } else if same_text(action, "file") {
        DiagnosticsAction::File
    } else if same_text(action, "workspace") {
        DiagnosticsAction::Workspace
    } else {
        DiagnosticsAction::Unknown
    }
}

/// The findings of one file.
#[derive(Debug, Clone, PartialEq, Eq)]
pub struct FileRequest {
    pub path: String,
    pub root_id: Option<String>,
    pub min_severity: Option<String>,
    pub detail: Option<String>,
    pub codes: Vec<String>,
    /// The first and the last line.
    pub range: Option<(usize, usize)>,
    pub max_findings: usize,
    pub max_output_tokens: Option<usize>,
}

/// The findings of the workspace.
#[derive(Debug, Clone, PartialEq, Eq)]
pub struct SweepRequest {
    pub min_severity: Option<String>,
    pub codes: Vec<String>,
    pub max_files: usize,
    pub max_output_tokens: Option<usize>,
}

/// What a request for findings does.
#[derive(Debug, Clone, PartialEq, Eq)]
pub enum DiagnosticsRoute {
    Schema,
    Catalog { locale: Option<String>, codes: Vec<String>, max_output_tokens: Option<usize> },
    Status,
    File(FileRequest),
    Workspace(SweepRequest),
    /// The contract of the tool knows no such action.
    UnknownAction(String),
}

/// The lines that a request is narrowed to.
pub open spec fn line_range(start: Option<usize>, end: Option<usize>) -> Option<(usize, usize)> {
    if start is None && end is None {
        None
    } else {
        Some(
            (
                match start {
                    Some(start) => start,
                    None => 0,
                },
                match end {
                    Some(end) => end,
                    None => usize::MAX,
                },
            ),
        )
    }
}

/// The lines that a request is narrowed to: a missing bound is the first or the last line.
pub fn range_of(start: Option<usize>, end: Option<usize>) -> (range: Option<(usize, usize)>)
    ensures
        range == line_range(start, end),
{
    match (start, end) {
        (Some(start), Some(end)) => Some((start, end)),
        (Some(start), None) => Some((start, usize::MAX)),
        (None, Some(end)) => Some((0, end)),
        (None, None) => None,
    }
}

/// The files of a sweep.
pub open spec fn sweep_size(max_files: Option<usize>, ceiling: usize) -> usize {
    let wanted = match max_files {
        Some(max_files) => max_files,
        None => DEFAULT_MAX_SWEEP_FILES,
    };
    if wanted <= ceiling {
        wanted
    } else {
        ceiling
    }
}

/// The findings of one file that a request asks for.
pub fn diagnostics_file(p: DiagnosticsParams) -> (result: Result<FileRequest, McpError>)
    ensures
        match p.path {
            Some(path) => result == Ok::<FileRequest, McpError>(
                FileRequest {
                    path,
                    root_id: p.root_id,
                    min_severity: p.min_severity,
                    detail: p.detail,
                    codes: p.codes,
                    range: line_range(p.range_start, p.range_end),
                    max_findings: match p.max_findings {
                        Some(max_findings) => max_findings,
                        None => DEFAULT_MAX_FINDINGS,
                    },
                    max_output_tokens: p.max_output_tokens,
                },
            ),
            None => refused(result, missing_field("path"@, "file"@)),
        },
{
    let max_findings: usize = match p.max_findings {
        Some(max_findings) => max_findings,
        None => DEFAULT_MAX_FINDINGS,
    };
    match require(p.path, "path", "file") {
        Ok(path) => Ok(
            FileRequest {
                path,
                root_id: p.root_id,
                min_severity: p.min_severity,
                detail: p.detail,
                codes: p.codes,
                range: range_of(p.range_start, p.range_end),
                max_findings,
                max_output_tokens: p.max_output_tokens,
            },
        ),
        Err(error) => Err(error),
    }
}

/// The findings of the workspace that a request asks for, over `ceiling` files at most.
pub fn diagnostics_workspace(p: DiagnosticsParams, ceiling: usize) -> (request: SweepRequest)
    ensures
        request == (SweepRequest {
            min_severity: p.min_severity,
            codes: p.codes,
            max_files: sweep_size(p.max_files, ceiling),
            max_output_tokens: p.max_output_tokens,
        }),
        request.max_files <= ceiling,
{
    let wanted: usize = match p.max_files {
        Some(max_files) => max_files,
        None => DEFAULT_MAX_SWEEP_FILES,
    };
    SweepRequest {
        min_severity: p.min_severity,
        codes: p.codes,
        max_files: if wanted <= ceiling {
            wanted
        } else {
            ceiling
        },
        max_output_tokens: p.max_output_tokens,
    }
}

impl DiagnosticsParams {
    /// The request holds an answer with findings to fewer tokens than it can be held to.
    pub open spec fn starves(self) -> bool {
        let action = diagnostics_action_of(self.action@);
        &&& action == DiagnosticsAction::Catalog || action == DiagnosticsAction::File || action
            == DiagnosticsAction::Workspace
        &&& self.max_output_tokens is Some
        &&& self.max_output_tokens->Some_0 < MIN_OUTPUT_TOKENS
    }
}

/// The text of a bound that is too small.
pub open spec fn starved_text() -> Seq<char> {
    "max_output_tokens must be at least 256 for diagnostics"@
}

/// The route of a request for findings.
pub open spec fn diagnostics_routed(
    p: DiagnosticsParams,
    sweep_ceiling: usize,
    result: Result<DiagnosticsRoute, McpError>,
) -> bool {
    if p.starves() {
        refused(result, starved_text())
    } else {
        match diagnostics_action_of(p.action@) {
            DiagnosticsAction::Schema => result == Ok::<DiagnosticsRoute, McpError>(
                DiagnosticsRoute::Schema,
            ),
            DiagnosticsAction::Catalog => result == Ok::<DiagnosticsRoute, McpError>(
                DiagnosticsRoute::Catalog {
                    locale: p.locale,
                    codes: p.codes,
                    max_output_tokens: p.max_output_tokens,
                },
            ),
            DiagnosticsAction::Status => result == Ok::<DiagnosticsRoute, McpError>(
                DiagnosticsRoute::Status,
            ),
            DiagnosticsAction::File => match p.path {
                Some(path) => result == Ok::<DiagnosticsRoute, McpError>(
                    DiagnosticsRoute::File(
                        FileRequest {
                            path,
                            root_id: p.root_id,
                            min_severity: p.min_severity,
                            detail: p.detail,
                            codes: p.codes,
                            range: line_range(p.range_start, p.range_end),
                            max_findings: match p.max_findings {
                                Some(max_findings) => max_findings,
                                None => DEFAULT_MAX_FINDINGS,
                            },
                            max_output_tokens: p.max_output_tokens,
                        },
                    ),
                ),
                None => refused(result, missing_field("path"@, "file"@)),
            },
            DiagnosticsAction::Workspace => result == Ok::<DiagnosticsRoute, McpError>(
                DiagnosticsRoute::Workspace(
                    SweepRequest {
                        min_severity: p.min_severity,
                        codes: p.codes,
                        max_files: sweep_size(p.max_files, sweep_ceiling),
                        max_output_tokens: p.max_output_tokens,
                    },
                ),
            ),
            DiagnosticsAction::Unknown => result == Ok::<DiagnosticsRoute, McpError>(
                DiagnosticsRoute::UnknownAction(p.action),
            ),
        }
    }
}

/// Routes a request for findings, over `sweep_ceiling` files at most.
pub fn diagnostics(p: DiagnosticsParams, sweep_ceiling: usize) -> (result: Result<
    DiagnosticsRoute,
    McpError,
>)
    ensures
        diagnostics_routed(p, sweep_ceiling, result),
{
    let action: DiagnosticsAction = diagnostics_action(p.action.as_str());
    let budgeted: bool = match action {
        DiagnosticsAction::Catalog => true,
        DiagnosticsAction::File => true,
        DiagnosticsAction::Workspace => true,
        _ => false,
    };
    let starved: bool = match p.max_output_tokens {
        Some(tokens) => tokens < MIN_OUTPUT_TOKENS,
        None => false,
    };
    if budgeted && starved {
        return Err(
            invalid_params("max_output_tokens must be at least 256 for diagnostics".to_owned()),
        );
    }
    match action {
        DiagnosticsAction::Schema => Ok(DiagnosticsRoute::Schema),
        DiagnosticsAction::Catalog => Ok(
            DiagnosticsRoute::Catalog {
                locale: p.locale,
                codes: p.codes,
                max_output_tokens: p.max_output_tokens,
            },
        ),
        DiagnosticsAction::Status => Ok(DiagnosticsRoute::Status),
        DiagnosticsAction::File => match diagnostics_file(p) {
            Ok(request) => Ok(DiagnosticsRoute::File(request)),
            Err(error) => Err(error),
        },
        DiagnosticsAction::Workspace => Ok(
            DiagnosticsRoute::Workspace(diagnostics_workspace(p, sweep_ceiling)),
        ),
        DiagnosticsAction::Unknown => Ok(DiagnosticsRoute::UnknownAction(p.action)),
    }
}

/// The builds that a request for findings starts: the findings are read of the resident
/// workspace, and its status starts it too. The catalog and the schema need none.
pub open spec fn diagnostics_builds(p: DiagnosticsParams) -> Loads {
    if p.starves() {
        nothing()
    } else {
        match diagnostics_action_of(p.action@) {
            DiagnosticsAction::Status | DiagnosticsAction::Workspace => resident_alone(),
            DiagnosticsAction::File => if p.path is Some {
                resident_alone()
            } else {
                nothing()
            },
            _ => nothing(),
        }
    }
}

/// The builds that a request for findings starts, before anything is read of them.
pub fn diagnostics_loads(p: &DiagnosticsParams) -> (loads: Loads)
    ensures
        loads == diagnostics_builds(*p),
{
    let starved: bool = match p.max_output_tokens {
        Some(tokens) => tokens < MIN_OUTPUT_TOKENS,
        None => false,
    };
    let resident: bool = match diagnostics_action(p.action.as_str()) {
        DiagnosticsAction::Status => true,
        DiagnosticsAction::Workspace => !starved,
        DiagnosticsAction::File => !starved && p.path.is_some(),
        _ => false,
    };
    Loads { graph: false, resident, reference: false }
}

/// The resident workspace is started by exactly the requests that read it or ask for its status.
pub proof fn findings_of_the_workspace_start_it(
    p: DiagnosticsParams,
    sweep_ceiling: usize,
    result: Result<DiagnosticsRoute, McpError>,
)
    requires
        diagnostics_routed(p, sweep_ceiling, result),
    ensures
        diagnostics_builds(p).resident <==> (result matches Ok(route) && (route is File
            || route is Workspace || route is Status)),
{
}

proof fn lemma_every_action_has_a_name_of_its_own()
    ensures
        diagnostics_action_of("schema"@) is Schema,
        diagnostics_action_of("catalog"@) is Catalog,
        diagnostics_action_of("status"@) is Status,
        diagnostics_action_of("file"@) is File,
        diagnostics_action_of("workspace"@) is Workspace,
{
    reveal_strlit("schema");
    reveal_strlit("catalog");
    reveal_strlit("status");
    reveal_strlit("file");
    reveal_strlit("workspace");
    assert("schema"@.len() == 6);
    assert("catalog"@.len() == 7);
    assert("status"@.len() == 6);
    assert("file"@.len() == 4);
    assert("workspace"@.len() == 9);
    assert("schema"@[1] != "status"@[1]);
}

/// Every action has one name, and every other text names none.
pub proof fn every_action_on_findings_has_one_name(action: &str, named: DiagnosticsAction)
    requires
        call_ensures(diagnostics_action, (action,), named),
    ensures
        named is Schema <==> action@ == "schema"@,
        named is Catalog <==> action@ == "catalog"@,
        named is Status <==> action@ == "status"@,
        named is File <==> action@ == "file"@,
        named is Workspace <==> action@ == "workspace"@,
{
    lemma_every_action_has_a_name_of_its_own();
}

/// A request is refused exactly where it holds findings to fewer than 256 tokens, or asks for those
/// of a file that it does not name; the tokens are judged first.
pub proof fn a_request_for_findings_is_refused_by_name(
    p: DiagnosticsParams,
    sweep_ceiling: usize,
    result: Result<DiagnosticsRoute, McpError>,
)
    requires
        call_ensures(diagnostics, (p, sweep_ceiling), result),
    ensures
        ({
            let starves = (p.action@ == "catalog"@ || p.action@ == "file"@ || p.action@
                == "workspace"@) && (p.max_output_tokens matches Some(tokens) && tokens < 256);
            &&& result is Err <==> starves || p.action@ == "file"@ && p.path is None
            &&& starves ==> refuses(
                result->Err_0,
                "max_output_tokens must be at least 256 for diagnostics"@,
            )
            &&& !starves && p.action@ == "file"@ && p.path is None ==> refuses(
                result->Err_0,
                "'"@ + "path"@ + "' is required for action '"@ + "file"@ + "'"@,
            )
        }),
{
    lemma_every_action_has_a_name_of_its_own();
}

/// The findings of a file keep to the lines, the number and everything else that the request says:
/// a bound that it does not set is the first line, the last line or 200 findings, and without any
/// line the whole file is meant.
pub open spec fn asks_for_its_file(p: DiagnosticsParams, request: FileRequest) -> bool {
    &&& Some(request.path) == p.path
    &&& request.root_id == p.root_id
    &&& request.min_severity == p.min_severity
    &&& request.detail == p.detail
    &&& request.codes == p.codes
    &&& request.max_output_tokens == p.max_output_tokens
    &&& p.max_findings matches Some(asked) ==> request.max_findings == asked
    &&& p.max_findings is None ==> request.max_findings == 200
    &&& request.range is None <==> p.range_start is None && p.range_end is None
    &&& request.range matches Some(range) ==> {
        &&& p.range_start matches Some(start) ==> range.0 == start
        &&& p.range_start is None ==> range.0 == 0
        &&& p.range_end matches Some(end) ==> range.1 == end
        &&& p.range_end is None ==> range.1 == usize::MAX
    }
}

/// A sweep keeps to what the request says, over as many files as it asks for, or 1000, but never
/// over more than the ceiling.
pub open spec fn asks_for_its_sweep(
    p: DiagnosticsParams,
    ceiling: usize,
    request: SweepRequest,
) -> bool {
    &&& request.min_severity == p.min_severity
    &&& request.codes == p.codes
    &&& request.max_output_tokens == p.max_output_tokens
    &&& request.max_files <= ceiling
    &&& p.max_files matches Some(asked) ==> request.max_files == if asked < ceiling {
        asked
    } else {
        ceiling
    }
    &&& p.max_files is None ==> request.max_files == if 1000 < ceiling { 1000 } else { ceiling }
}

/// A request that is let through goes where its action says and keeps all that it says.
pub proof fn a_request_for_findings_keeps_what_it_says(
    p: DiagnosticsParams,
    sweep_ceiling: usize,
    result: Result<DiagnosticsRoute, McpError>,
)
    requires
        call_ensures(diagnostics, (p, sweep_ceiling), result),
        result is Ok,
    ensures
        ({
            let route = result->Ok_0;
            &&& route is Schema <==> p.action@ == "schema"@
            &&& route is Catalog <==> p.action@ == "catalog"@
            &&& route is Status <==> p.action@ == "status"@
            &&& route is File <==> p.action@ == "file"@
            &&& route is Workspace <==> p.action@ == "workspace"@
            &&& route matches DiagnosticsRoute::UnknownAction(action) ==> action == p.action
            &&& route matches DiagnosticsRoute::Catalog { locale, codes, max_output_tokens }
                ==> locale == p.locale && codes == p.codes && max_output_tokens
                == p.max_output_tokens
            &&& route matches DiagnosticsRoute::File(request) ==> asks_for_its_file(p, request)
            &&& route matches DiagnosticsRoute::Workspace(request) ==> asks_for_its_sweep(
                p,
                sweep_ceiling,
                request,
            )
        }),
{
    lemma_every_action_has_a_name_of_its_own();
}

/// The parts of a request are made by the same rules: the file and its lines, and the sweep.
pub proof fn the_parts_of_a_request_keep_what_it_says(
    p: DiagnosticsParams,
    ceiling: usize,
    file: Result<FileRequest, McpError>,
    sweep: SweepRequest,
    start: Option<usize>,
    end: Option<usize>,
    range: Option<(usize, usize)>,
)
    requires
        call_ensures(diagnostics_file, (p,), file),
        call_ensures(diagnostics_workspace, (p, ceiling), sweep),
        call_ensures(range_of, (start, end), range),
    ensures
        file is Ok <==> p.path is Some,
        file matches Ok(request) ==> asks_for_its_file(p, request),
        file matches Err(error) ==> refuses(
            error,
            "'"@ + "path"@ + "' is required for action '"@ + "file"@ + "'"@,
        ),
        asks_for_its_sweep(p, ceiling, sweep),
        range is None <==> start is None && end is None,
        range matches Some(lines) ==> {
            &&& start matches Some(first) ==> lines.0 == first
            &&& start is None ==> lines.0 == 0
            &&& end matches Some(last) ==> lines.1 == last
            &&& end is None ==> lines.1 == usize::MAX
        },
{
}

/// The resident workspace is started by a request for its status and by one whose findings are read
/// of it, and by no request that is refused.
pub proof fn a_request_for_findings_starts_what_it_reads(p: DiagnosticsParams, loads: Loads)
    requires
        call_ensures(diagnostics_loads, (&p,), loads),
    ensures
        ({
            let starved = p.max_output_tokens matches Some(tokens) && tokens < 256;
            &&& !loads.graph && !loads.reference
            &&& loads.resident <==> {
                ||| p.action@ == "status"@
                ||| p.action@ == "workspace"@ && !starved
                ||| p.action@ == "file"@ && !starved && p.path is Some
            }
        }),
{
    lemma_every_action_has_a_name_of_its_own();
}

} // verus!
