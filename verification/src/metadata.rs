//! Requests of the metadata tool.

use crate::error::{invalid_params, missing_field, refused, refuses, require, McpError};
use crate::loads::{nothing, resident_alone, Loads};
use crate::search_command::{budget_of, output_budget};
use crate::text::same_text;
use vstd::prelude::*;

verus! {

/// A request for metadata.
#[derive(Debug, Clone, PartialEq, Eq)]
pub struct MetadataParams {
    pub action: String,
    pub filter: Option<String>,
    pub meta_type: Option<String>,
    pub name_mask: Option<String>,
    pub max_items: Option<u32>,
    pub object_type: Option<String>,
    pub object_name: Option<String>,
    pub form_name: Option<String>,
    pub max_output_tokens: Option<usize>,
    pub connection: Option<String>,
    pub mode: Option<String>,
}

/// Where metadata is read from.
#[derive(Debug, Clone, Copy, PartialEq, Eq, Structural)]
pub enum MetadataMode {
    /// From the infobase where a connection is named, and else from the sources.
    Auto,
    Source,
    Infobase,
    Unknown,
}

/// The mode that a text names.
pub open spec fn mode_of(mode: Option<String>) -> MetadataMode {
    match mode {
        None => MetadataMode::Auto,
        Some(text) => if text@ == "auto"@ {
            MetadataMode::Auto
        } else if text@ == "source"@ {
            MetadataMode::Source
        } else if text@ == "infobase"@ {
            MetadataMode::Infobase
        } else {
            MetadataMode::Unknown
        },
    }
}

/// The mode that a text names.
pub fn metadata_mode(mode: &Option<String>) -> (named: MetadataMode)
    ensures
        named == mode_of(*mode),
{
    match mode {
        None => MetadataMode::Auto,
        Some(text) => if same_text(text.as_str(), "auto") {
            MetadataMode::Auto
        } else if same_text(text.as_str(), "source") {
            MetadataMode::Source
        } else if same_text(text.as_str(), "infobase") {
            MetadataMode::Infobase
        } else {
            MetadataMode::Unknown
        },
    }
}

/// What is asked about metadata.
#[derive(Debug, Clone, Copy, PartialEq, Eq, Structural)]
pub enum MetadataAction {
    Status,
    Tree,
    Object,
    Form,
    Info,
    Unknown,
}

/// The action that a text names.
pub open spec fn action_of(action: Seq<char>) -> MetadataAction {
    if action == "status"@ {
        MetadataAction::Status
    } else if action == "tree"@ {
        MetadataAction::Tree
    } else if action == "object"@ {
        MetadataAction::Object
    } else if action == "form"@ {
        MetadataAction::Form
    } else if action == "info"@ {
        MetadataAction::Info
    } else {
        MetadataAction::Unknown
    }
}

/// The action that a text names.
pub fn metadata_action(action: &str) -> (named: MetadataAction)
    ensures
        named == action_of(action@),
{
    if same_text(action, "status") {
        MetadataAction::Status
    } else if same_text(action, "tree") {
        MetadataAction::Tree
    } else if same_text(action, "object") {
        MetadataAction::Object
    } else if same_text(action, "form") {
        MetadataAction::Form
    } else if same_text(action, "info") {
        MetadataAction::Info
    } else {
        MetadataAction::Unknown
    }
}

/// A read of the metadata in the resident workspace.
#[derive(Debug, Clone, PartialEq, Eq)]
pub struct MetadataRead {
    pub action: String,
    pub filter: Option<String>,
    pub object_type: Option<String>,
    pub object_name: Option<String>,
    pub max_output_tokens: usize,
}

/// What a request for metadata does.
#[derive(Debug, Clone, PartialEq, Eq)]
pub enum MetadataRoute {
    Status,
    /// List objects of a running infobase.
    LiveTree {
        connection: Option<String>,
        meta_type: String,
        name_mask: Option<String>,
        max_items: u32,
    },
    /// Describe an object of a running infobase.
    LiveObject { connection: Option<String>, object_type: String, object_name: String },
    /// Read the structure of a form from the sources.
    Form { object_type: String, object_name: Option<String>, form_name: Option<String> },
    /// Read the resident workspace.
    Resident(MetadataRead),
}

impl MetadataParams {
    /// The request goes to a running infobase.
    pub open spec fn live(self) -> bool {
        ||| mode_of(self.mode) == MetadataMode::Infobase
        ||| mode_of(self.mode) == MetadataMode::Auto && self.connection is Some
    }
}

/// The text of an unknown mode.
pub open spec fn unknown_mode_text(mode: Seq<char>) -> Seq<char> {
    "Unknown metadata mode '"@ + mode + "'. Expected: auto, source, infobase"@
}

/// The text of an action that a running infobase does not answer.
pub open spec fn not_live_text(action: Seq<char>) -> Seq<char> {
    "Metadata action '"@ + action + "' is unavailable in infobase mode. Expected: tree, object"@
}

/// The route of a request to a running infobase.
pub open spec fn live_routed(p: MetadataParams, result: Result<MetadataRoute, McpError>) -> bool {
    match action_of(p.action@) {
        MetadataAction::Tree => match p.meta_type {
            Some(meta_type) => result == Ok::<MetadataRoute, McpError>(
                MetadataRoute::LiveTree {
                    connection: p.connection,
                    meta_type,
                    name_mask: p.name_mask,
                    max_items: match p.max_items {
                        Some(max_items) => max_items,
                        None => 100,
                    },
                },
            ),
            None => refused(result, missing_field("meta_type"@, "tree in infobase mode"@)),
        },
        MetadataAction::Object => match (p.object_type, p.object_name) {
            (Some(object_type), Some(object_name)) => result == Ok::<MetadataRoute, McpError>(
                MetadataRoute::LiveObject { connection: p.connection, object_type, object_name },
            ),
            (None, _) => refused(result, missing_field("object_type"@, "object"@)),
            (Some(_), None) => refused(result, missing_field("object_name"@, "object"@)),
        },
        _ => refused(result, not_live_text(p.action@)),
    }
}

/// The route of a request for metadata.
pub open spec fn metadata_routed(
    p: MetadataParams,
    result: Result<MetadataRoute, McpError>,
) -> bool {
    if mode_of(p.mode) == MetadataMode::Unknown {
        refused(result, unknown_mode_text(p.mode->Some_0@))
    } else if action_of(p.action@) == MetadataAction::Status {
        result == Ok::<MetadataRoute, McpError>(MetadataRoute::Status)
    } else if p.live() {
        live_routed(p, result)
    } else if action_of(p.action@) == MetadataAction::Form {
        match p.object_type {
            Some(object_type) => result == Ok::<MetadataRoute, McpError>(
                MetadataRoute::Form {
                    object_type,
                    object_name: p.object_name,
                    form_name: p.form_name,
                },
            ),
            None => refused(result, missing_field("object_type"@, "form"@)),
        }
    } else {
        result == Ok::<MetadataRoute, McpError>(
            MetadataRoute::Resident(
                MetadataRead {
                    action: p.action,
                    filter: p.filter,
                    object_type: p.object_type,
                    object_name: p.object_name,
                    max_output_tokens: budget_of(p.max_output_tokens),
                },
            ),
        )
    }
}

/// Routes a request for metadata. The mode is judged first, then the status is answered; what
/// goes to a running infobase is a tree or an object; a form is read from the sources, and
/// everything else from the resident workspace.
pub fn metadata(p: MetadataParams) -> (result: Result<MetadataRoute, McpError>)
    ensures
        metadata_routed(p, result),
{
    let mode: MetadataMode = metadata_mode(&p.mode);
    let live: bool = match mode {
        MetadataMode::Unknown => {
            let mut text: String = "Unknown metadata mode '".to_owned();
            if let Some(mode) = &p.mode {
                text.append(mode.as_str());
            }
            text.append("'. Expected: auto, source, infobase");
            return Err(invalid_params(text));
        },
        MetadataMode::Infobase => true,
        MetadataMode::Auto => p.connection.is_some(),
        MetadataMode::Source => false,
    };
    let action: MetadataAction = metadata_action(p.action.as_str());
    if action == MetadataAction::Status {
        return Ok(MetadataRoute::Status);
    }
    if live {
        return match action {
            MetadataAction::Tree => {
                let max_items: u32 = match p.max_items {
                    Some(max_items) => max_items,
                    None => 100,
                };
                match require(p.meta_type, "meta_type", "tree in infobase mode") {
                    Ok(meta_type) => Ok(
                        MetadataRoute::LiveTree {
                            connection: p.connection,
                            meta_type,
                            name_mask: p.name_mask,
                            max_items,
                        },
                    ),
                    Err(error) => Err(error),
                }
            },
            MetadataAction::Object => match require(p.object_type, "object_type", "object") {
                Ok(object_type) => match require(p.object_name, "object_name", "object") {
                    Ok(object_name) => Ok(
                        MetadataRoute::LiveObject {
                            connection: p.connection,
                            object_type,
                            object_name,
                        },
                    ),
                    Err(error) => Err(error),
                },
                Err(error) => Err(error),
            },
            _ => {
                let mut text: String = "Metadata action '".to_owned();
                text.append(p.action.as_str());
                text.append("' is unavailable in infobase mode. Expected: tree, object");
                Err(invalid_params(text))
            },
        };
    }
    if action == MetadataAction::Form {
        return match require(p.object_type, "object_type", "form") {
            Ok(object_type) => Ok(
                MetadataRoute::Form {
                    object_type,
                    object_name: p.object_name,
                    form_name: p.form_name,
                },
            ),
            Err(error) => Err(error),
        };
    }
    Ok(
        MetadataRoute::Resident(
            MetadataRead {
                action: p.action,
                filter: p.filter,
                object_type: p.object_type,
                object_name: p.object_name,
                max_output_tokens: output_budget(p.max_output_tokens),
            },
        ),
    )
}

/// The builds that a request for metadata starts: what is read of the resident workspace, and
/// its status, start it. A running infobase and the sources of a form need none.
pub open spec fn metadata_builds(p: MetadataParams) -> Loads {
    if mode_of(p.mode) == MetadataMode::Unknown {
        nothing()
    } else if action_of(p.action@) == MetadataAction::Status {
        resident_alone()
    } else if p.live() || action_of(p.action@) == MetadataAction::Form {
        nothing()
    } else {
        resident_alone()
    }
}

/// The builds that a request for metadata starts, before anything is read of them.
pub fn metadata_loads(p: &MetadataParams) -> (loads: Loads)
    ensures
        loads == metadata_builds(*p),
{
    let action: MetadataAction = metadata_action(p.action.as_str());
    let live: bool = match metadata_mode(&p.mode) {
        MetadataMode::Unknown => {
            return Loads { graph: false, resident: false, reference: false };
        },
        MetadataMode::Infobase => true,
        MetadataMode::Auto => p.connection.is_some(),
        MetadataMode::Source => false,
    };
    let resident: bool = match action {
        MetadataAction::Status => true,
        MetadataAction::Form => false,
        _ => !live,
    };
    Loads { graph: false, resident, reference: false }
}

/// The resident workspace is started by exactly the requests that read it or ask for its status.
pub proof fn metadata_of_the_workspace_starts_it(
    p: MetadataParams,
    result: Result<MetadataRoute, McpError>,
)
    requires
        metadata_routed(p, result),
    ensures
        metadata_builds(p).resident <==> (result matches Ok(route) && (route is Resident
            || route is Status)),
{
}

/// What a read of the resident workspace looks up.
#[derive(Debug, Clone, PartialEq, Eq)]
pub enum MetadataQuery {
    Info,
    Tree { filter: Option<String>, max_output_tokens: usize },
    Object { object_type: String, object_name: String },
    /// The contract of the tool knows no such action.
    UnknownAction(String),
}

impl MetadataRead {
    /// What the read looks up.
    pub fn query(&self) -> (result: Result<MetadataQuery, McpError>)
        ensures
            match action_of(self.action@) {
                MetadataAction::Info => result == Ok::<MetadataQuery, McpError>(
                    MetadataQuery::Info,
                ),
                MetadataAction::Tree => result == Ok::<MetadataQuery, McpError>(
                    MetadataQuery::Tree {
                        filter: self.filter,
                        max_output_tokens: self.max_output_tokens,
                    },
                ),
                MetadataAction::Object => match (self.object_type, self.object_name) {
                    (Some(object_type), Some(object_name)) => result == Ok::<
                        MetadataQuery,
                        McpError,
                    >(MetadataQuery::Object { object_type, object_name }),
                    (None, _) => refused(result, missing_field("object_type"@, "object"@)),
                    (Some(_), None) => refused(result, missing_field("object_name"@, "object"@)),
                },
                _ => result == Ok::<MetadataQuery, McpError>(
                    MetadataQuery::UnknownAction(self.action),
                ),
            },
    {
        match metadata_action(self.action.as_str()) {
            MetadataAction::Info => Ok(MetadataQuery::Info),
            MetadataAction::Tree => {
                let filter: Option<String> = match &self.filter {
                    Some(filter) => Some(filter.clone()),
                    None => None,
                };
                Ok(MetadataQuery::Tree { filter, max_output_tokens: self.max_output_tokens })
            },
            MetadataAction::Object => {
                let object_type: Option<String> = match &self.object_type {
                    Some(object_type) => Some(object_type.clone()),
                    None => None,
                };
                let object_name: Option<String> = match &self.object_name {
                    Some(object_name) => Some(object_name.clone()),
                    None => None,
                };
                match require(object_type, "object_type", "object") {
                    Ok(object_type) => match require(object_name, "object_name", "object") {
                        Ok(object_name) => Ok(MetadataQuery::Object { object_type, object_name }),
                        Err(error) => Err(error),
                    },
                    Err(error) => Err(error),
                }
            },
            _ => Ok(MetadataQuery::UnknownAction(self.action.clone())),
        }
    }

    /// Whether a read that failed is tried once more after the workspace was looked over again:
    /// only the lookup of an object can have missed something new, and only where its type is
    /// one that can be resolved.
    pub fn rescans(&self, failed: bool, resolvable_type: bool) -> (again: bool)
        ensures
            again == (action_of(self.action@) == MetadataAction::Object && failed
                && self.object_type is Some && resolvable_type),
    {
        metadata_action(self.action.as_str()) == MetadataAction::Object && failed
            && self.object_type.is_some() && resolvable_type
    }
}

proof fn lemma_every_mode_and_action_has_a_name_of_its_own()
    ensures
        action_of("status"@) is Status,
        action_of("tree"@) is Tree,
        action_of("object"@) is Object,
        action_of("form"@) is Form,
        action_of("info"@) is Info,
        "auto"@ != "source"@,
        "auto"@ != "infobase"@,
        "source"@ != "infobase"@,
{
    reveal_strlit("status");
    reveal_strlit("tree");
    reveal_strlit("object");
    reveal_strlit("form");
    reveal_strlit("info");
    assert("status"@.len() == 6);
    assert("tree"@.len() == 4);
    assert("object"@.len() == 6);
    assert("form"@.len() == 4);
    assert("info"@.len() == 4);
    assert("status"@[0] != "object"@[0]);
    assert("tree"@[0] != "form"@[0]);
    assert("tree"@[0] != "info"@[0]);
    assert("form"@[0] != "info"@[0]);
    reveal_strlit("auto");
    reveal_strlit("source");
    reveal_strlit("infobase");
    assert("auto"@.len() == 4);
    assert("source"@.len() == 6);
    assert("infobase"@.len() == 8);
}

/// Every action has one name, and every other text names none.
pub proof fn every_action_on_metadata_has_one_name(action: &str, named: MetadataAction)
    requires
        call_ensures(metadata_action, (action,), named),
    ensures
        named is Status <==> action@ == "status"@,
        named is Tree <==> action@ == "tree"@,
        named is Object <==> action@ == "object"@,
        named is Form <==> action@ == "form"@,
        named is Info <==> action@ == "info"@,
{
    lemma_every_mode_and_action_has_a_name_of_its_own();
}

/// Every mode has one name, a request without one chooses for itself, and every other text names
/// none.
pub proof fn every_mode_has_one_name(mode: Option<String>, named: MetadataMode)
    requires
        call_ensures(metadata_mode, (&mode,), named),
    ensures
        named is Auto <==> mode is None || (mode matches Some(text) && text@ == "auto"@),
        named is Source <==> (mode matches Some(text) && text@ == "source"@),
        named is Infobase <==> (mode matches Some(text) && text@ == "infobase"@),
{
    lemma_every_mode_and_action_has_a_name_of_its_own();
}

/// A request is refused exactly where its mode is unknown, where a running infobase is asked for
/// what it does not answer, or where what it is about is not named; and it is told which.
pub proof fn a_request_for_metadata_is_refused_by_name(
    p: MetadataParams,
    result: Result<MetadataRoute, McpError>,
)
    requires
        call_ensures(metadata, (p,), result),
    ensures
        ({
            let named = p.mode matches Some(mode) && mode@ != "auto"@;
            let unknown = p.mode matches Some(mode) && mode@ != "auto"@ && mode@ != "source"@
                && mode@ != "infobase"@;
            let live = (p.mode matches Some(mode) && mode@ == "infobase"@) || (!named
                && p.connection is Some);
            let status = p.action@ == "status"@;
            let tree = p.action@ == "tree"@;
            let object = p.action@ == "object"@;
            let form = p.action@ == "form"@;
            &&& result is Err <==> {
                ||| unknown
                ||| !status && live && tree && p.meta_type is None
                ||| !status && live && object && (p.object_type is None || p.object_name is None)
                ||| !status && live && !tree && !object
                ||| !live && form && p.object_type is None
            }
            &&& unknown ==> refuses(
                result->Err_0,
                "Unknown metadata mode '"@ + p.mode->Some_0@
                    + "'. Expected: auto, source, infobase"@,
            )
            &&& !unknown && live && tree && p.meta_type is None ==> refuses(
                result->Err_0,
                "'"@ + "meta_type"@ + "' is required for action '"@ + "tree in infobase mode"@ + "'"@,
            )
            &&& !unknown && live && object && p.object_type is None ==> refuses(
                result->Err_0,
                "'"@ + "object_type"@ + "' is required for action '"@ + "object"@ + "'"@,
            )
            &&& !unknown && live && object && p.object_type is Some && p.object_name is None
                ==> refuses(
                result->Err_0,
                "'"@ + "object_name"@ + "' is required for action '"@ + "object"@ + "'"@,
            )
            &&& !unknown && live && !status && !tree && !object ==> refuses(
                result->Err_0,
                "Metadata action '"@ + p.action@
                    + "' is unavailable in infobase mode. Expected: tree, object"@,
            )
            &&& !unknown && !live && form && p.object_type is None ==> refuses(
                result->Err_0,
                "'"@ + "object_type"@ + "' is required for action '"@ + "form"@ + "'"@,
            )
        }),
{
    lemma_every_mode_and_action_has_a_name_of_its_own();
}

/// A request that is let through keeps all that it says. It goes to a running infobase where its
/// mode says so, or where it chooses for itself and names a connection; a form is read from the
/// sources, the status is answered anywhere, and everything else is read of the resident workspace.
/// A hundred objects are listed and 6000 tokens spent where the request sets no bound.
pub proof fn a_request_for_metadata_keeps_what_it_says(
    p: MetadataParams,
    result: Result<MetadataRoute, McpError>,
)
    requires
        call_ensures(metadata, (p,), result),
        result is Ok,
    ensures
        ({
            let named = p.mode matches Some(mode) && mode@ != "auto"@;
            let live = (p.mode matches Some(mode) && mode@ == "infobase"@) || (!named
                && p.connection is Some);
            let route = result->Ok_0;
            &&& route is Status <==> p.action@ == "status"@
            &&& route is LiveTree <==> live && p.action@ == "tree"@
            &&& route is LiveObject <==> live && p.action@ == "object"@
            &&& route is Form <==> !live && p.action@ == "form"@
            &&& route is Resident <==> !live && p.action@ != "status"@ && p.action@ != "form"@
            &&& route matches MetadataRoute::LiveTree {
                connection,
                meta_type,
                name_mask,
                max_items,
            } ==> connection == p.connection && Some(meta_type) == p.meta_type && name_mask
                == p.name_mask && (p.max_items matches Some(asked) ==> max_items == asked) && (
            p.max_items is None ==> max_items == 100)
            &&& route matches MetadataRoute::LiveObject { connection, object_type, object_name }
                ==> connection == p.connection && Some(object_type) == p.object_type && Some(
                object_name,
            ) == p.object_name
            &&& route matches MetadataRoute::Form { object_type, object_name, form_name } ==> Some(
                object_type,
            ) == p.object_type && object_name == p.object_name && form_name == p.form_name
            &&& route matches MetadataRoute::Resident(read) ==> {
                &&& read.action == p.action
                &&& read.filter == p.filter
                &&& read.object_type == p.object_type
                &&& read.object_name == p.object_name
                &&& p.max_output_tokens matches Some(asked) ==> read.max_output_tokens == asked
                &&& p.max_output_tokens is None ==> read.max_output_tokens == 6000
            }
        }),
{
    lemma_every_mode_and_action_has_a_name_of_its_own();
}

/// The resident workspace is started by a request for its status or for what is read of it, and not
/// by one that is refused for its mode, goes to a running infobase or reads a form.
pub proof fn a_request_for_metadata_starts_what_it_reads(p: MetadataParams, loads: Loads)
    requires
        call_ensures(metadata_loads, (&p,), loads),
    ensures
        ({
            let named = p.mode matches Some(mode) && mode@ != "auto"@;
            let unknown = p.mode matches Some(mode) && mode@ != "auto"@ && mode@ != "source"@
                && mode@ != "infobase"@;
            let live = (p.mode matches Some(mode) && mode@ == "infobase"@) || (!named
                && p.connection is Some);
            &&& !loads.graph && !loads.reference
            &&& loads.resident <==> !unknown && (p.action@ == "status"@ || (!live && p.action@
                != "form"@))
        }),
{
    lemma_every_mode_and_action_has_a_name_of_its_own();
}

/// A read looks up what its action names, with the filter, the bound and the object that it was
/// given. Only an object must be named whole, and only the lookup of a named type that failed is
/// tried again.
pub proof fn a_read_of_metadata_looks_up_what_it_names(
    read: MetadataRead,
    result: Result<MetadataQuery, McpError>,
    failed: bool,
    resolvable_type: bool,
    again: bool,
)
    requires
        call_ensures(MetadataRead::query, (&read,), result),
        call_ensures(MetadataRead::rescans, (&read, failed, resolvable_type), again),
    ensures
        read.action@ == "info"@ ==> (result matches Ok(asked) && asked is Info),
        read.action@ == "tree"@ ==> (result matches Ok(
            MetadataQuery::Tree { filter, max_output_tokens },
        ) && filter == read.filter && max_output_tokens == read.max_output_tokens),
        read.action@ == "object"@ && read.object_type is Some && read.object_name is Some ==> (
        result matches Ok(MetadataQuery::Object { object_type, object_name }) && Some(object_type)
            == read.object_type && Some(object_name) == read.object_name),
        read.action@ == "object"@ && read.object_type is None ==> result is Err && refuses(
            result->Err_0,
            "'"@ + "object_type"@ + "' is required for action '"@ + "object"@ + "'"@,
        ),
        read.action@ == "object"@ && read.object_type is Some && read.object_name is None ==> result
            is Err && refuses(
            result->Err_0,
            "'"@ + "object_name"@ + "' is required for action '"@ + "object"@ + "'"@,
        ),
        read.action@ != "info"@ && read.action@ != "tree"@ && read.action@ != "object"@ ==> (result
            matches Ok(MetadataQuery::UnknownAction(action)) && action == read.action),
        again <==> read.action@ == "object"@ && failed && read.object_type is Some
            && resolvable_type,
{
    lemma_every_mode_and_action_has_a_name_of_its_own();
}

} // verus!
