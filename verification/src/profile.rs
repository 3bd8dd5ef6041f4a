//! The two surfaces that the server offers.

use vstd::prelude::*;

verus! {

/// A surface of the server: over a workspace, or over the platform reference alone.
#[derive(Debug, Clone, Copy, PartialEq, Eq, Structural)]
pub enum McpProfile {
    Workspace,
    Reference,
}

/// How a client of the workspace profile is routed to its tools.
pub const WORKSPACE_INSTRUCTIONS: &'static str =
            "BSL Analyzer workspace MCP server for a 1C:Enterprise (BSL) configuration. \
             Route by task (each tool's own description carries the full contract):\n\
             - find code by meaning or unknown name → `search`;\n\
             - who-calls-whom / change impact → `graph` (durable ids; start at overview);\n\
             - one symbol's kind/signature/type/doc/definition/usages by name → `symbol_info`;\n\
             - one platform member's signature by name → `syntax_help`;\n\
             - one file's map (regions, declarations, parameters) → `outline`;\n\
             - analyzer findings (unreachable, type mismatch, unresolved) → `diagnostics` \
             (start at catalog to learn the codes);\n\
             - metadata objects / structure / forms → `metadata`;\n\
             - SDBL query validate/run → `query`; run/check BSL code → `execute`;\n\
             - live infobase runtime events → `event_log`; live debugger session → `debug`.\n\
             Tools whose data is built lazily (metadata, graph, diagnostics, search) return a \
             retry envelope while indexing rather than an error; every response is bounded \
             by `max_output_tokens` (and, where one exists, the action's own count cap) — \
             JSON tools (graph, diagnostics, event_log) flag `budget_exhausted` with a \
             `budget_hint`, text tools (search, metadata, query, execute, debug) append a \
             truncation note. When a count cap fired too, the hint says so: raising \
             `max_output_tokens` alone will not return more.";

/// How a client of the reference profile is routed to its tools.
pub const REFERENCE_INSTRUCTIONS: &'static str =
            "BSL Analyzer reference MCP server for the 1C platform (no project code). \
             Route by task (each tool's own description carries the full contract):\n\
             - one platform member's signature by name → `syntax_help`;\n\
             - platform docs by keyword or meaning → `search`;\n\
             - conceptual how/why question on the platform or standards → `its_help`.\n\
             Tools: search, syntax_help, its_help. Every response is bounded by \
             `max_output_tokens`; a truncated one appends a continuation note.";

impl McpProfile {
    /// The name of the profile.
    pub open spec fn name(self) -> Seq<char> {
        match self {
            McpProfile::Workspace => "workspace"@,
            McpProfile::Reference => "reference"@,
        }
    }

    /// The name of the profile.
    pub fn as_str(self) -> (name: &'static str)
        ensures
            name@ == self.name(),
    {
        match self {
            McpProfile::Workspace => "workspace",
            McpProfile::Reference => "reference",
        }
    }
}

/// The routing prose of a profile.
pub open spec fn instructions_of(profile: McpProfile) -> Seq<char> {
    match profile {
        McpProfile::Workspace => WORKSPACE_INSTRUCTIONS@,
        McpProfile::Reference => REFERENCE_INSTRUCTIONS@,
    }
}

/// The routing prose of a profile. It names every tool that a plain launch serves, and none that
/// a launch has to ask for.
pub fn profile_instructions(profile: McpProfile) -> (text: &'static str)
    ensures
        text@ == instructions_of(profile),
{
    match profile {
        McpProfile::Workspace => WORKSPACE_INSTRUCTIONS,
        McpProfile::Reference => REFERENCE_INSTRUCTIONS,
    }
}

/// `name` stands in `text` from `at` on.
pub open spec fn stands_at(text: Seq<char>, name: Seq<char>, at: int) -> bool {
    0 <= at && at + name.len() <= text.len() && text.subrange(at, at + name.len()) == name
}

/// `name` stands somewhere in `text`.
pub open spec fn mentions(text: Seq<char>, name: Seq<char>) -> bool {
    exists|at: int| #[trigger] stands_at(text, name, at)
}

/// The workspace prose names the tools of a plain launch. It leaves out the tool that a launch has
/// to ask for: no `f` in it is followed by an `e`.
pub(crate) proof fn lemma_workspace_tools_alone_are_mentioned()
    ensures
        mentions(instructions_of(McpProfile::Workspace), "debug"@),
        mentions(instructions_of(McpProfile::Workspace), "diagnostics"@),
        mentions(instructions_of(McpProfile::Workspace), "event_log"@),
        mentions(instructions_of(McpProfile::Workspace), "execute"@),
        mentions(instructions_of(McpProfile::Workspace), "graph"@),
        mentions(instructions_of(McpProfile::Workspace), "metadata"@),
        mentions(instructions_of(McpProfile::Workspace), "outline"@),
        mentions(instructions_of(McpProfile::Workspace), "query"@),
        mentions(instructions_of(McpProfile::Workspace), "search"@),
        mentions(instructions_of(McpProfile::Workspace), "symbol_info"@),
        mentions(instructions_of(McpProfile::Workspace), "syntax_help"@),
        !mentions(instructions_of(McpProfile::Workspace), "references"@),
{
    reveal_strlit(
        "BSL Analyzer workspace MCP server for a 1C:Enterprise (BSL) configuration. \
             Route by task (each tool's own description carries the full contract):\n\
             - find code by meaning or unknown name → `search`;\n\
             - who-calls-whom / change impact → `graph` (durable ids; start at overview);\n\
             - one symbol's kind/signature/type/doc/definition/usages by name → `symbol_info`;\n\
             - one platform member's signature by name → `syntax_help`;\n\
             - one file's map (regions, declarations, parameters) → `outline`;\n\
             - analyzer findings (unreachable, type mismatch, unresolved) → `diagnostics` \
             (start at catalog to learn the codes);\n\
             - metadata objects / structure / forms → `metadata`;\n\
             - SDBL query validate/run → `query`; run/check BSL code → `execute`;\n\
             - live infobase runtime events → `event_log`; live debugger session → `debug`.\n\
             Tools whose data is built lazily (metadata, graph, diagnostics, search) return a \
             retry envelope while indexing rather than an error; every response is bounded \
             by `max_output_tokens` (and, where one exists, the action's own count cap) — \
             JSON tools (graph, diagnostics, event_log) flag `budget_exhausted` with a \
             `budget_hint`, text tools (search, metadata, query, execute, debug) append a \
             truncation note. When a count cap fired too, the hint says so: raising \
             `max_output_tokens` alone will not return more.",
    );
    let text = WORKSPACE_INSTRUCTIONS@;
    assert(stands_at(text, "debug"@, 790)) by {
        reveal_strlit("debug");
        assert(text.subrange(790, 795) =~= "debug"@);
    }
    assert(stands_at(text, "diagnostics"@, 545)) by {
        reveal_strlit("diagnostics");
        assert(text.subrange(545, 556) =~= "diagnostics"@);
    }
    assert(stands_at(text, "event_log"@, 753)) by {
        reveal_strlit("event_log");
        assert(text.subrange(753, 762) =~= "event_log"@);
    }
    assert(stands_at(text, "execute"@, 709)) by {
        reveal_strlit("execute");
        assert(text.subrange(709, 716) =~= "execute"@);
    }
    assert(stands_at(text, "graph"@, 233)) by {
        reveal_strlit("graph");
        assert(text.subrange(233, 238) =~= "graph"@);
    }
    assert(stands_at(text, "metadata"@, 639)) by {
        reveal_strlit("metadata");
        assert(text.subrange(639, 647) =~= "metadata"@);
    }
    assert(stands_at(text, "outline"@, 471)) by {
        reveal_strlit("outline");
        assert(text.subrange(471, 478) =~= "outline"@);
    }
    assert(stands_at(text, "query"@, 679)) by {
        reveal_strlit("query");
        assert(text.subrange(679, 684) =~= "query"@);
    }
    assert(stands_at(text, "search"@, 188)) by {
        reveal_strlit("search");
        assert(text.subrange(188, 194) =~= "search"@);
    }
    assert(stands_at(text, "symbol_info"@, 342)) by {
        reveal_strlit("symbol_info");
        assert(text.subrange(342, 353) =~= "symbol_info"@);
    }
    assert(stands_at(text, "syntax_help"@, 401)) by {
        reveal_strlit("syntax_help");
        assert(text.subrange(401, 412) =~= "syntax_help"@);
    }
    reveal_strlit("references");
    let name = "references"@;
    assert forall|i: int|
        0 <= i < text.len() - 1 && #[trigger] text[i] == 'f' implies text[i + 1] != 'e' by {}
    assert forall|at: int| !#[trigger] stands_at(text, name, at) by {
        if stands_at(text, name, at) {
            assert(text.subrange(at, at + name.len())[2] == text[at + 2]);
            assert(text.subrange(at, at + name.len())[3] == text[at + 3]);
        }
    }
}

/// The reference prose names the tools of the profile.
pub(crate) proof fn lemma_reference_tools_are_mentioned()
    ensures
        mentions(instructions_of(McpProfile::Reference), "its_help"@),
        mentions(instructions_of(McpProfile::Reference), "search"@),
        mentions(instructions_of(McpProfile::Reference), "syntax_help"@),
{
    reveal_strlit(
        "BSL Analyzer reference MCP server for the 1C platform (no project code). \
             Route by task (each tool's own description carries the full contract):\n\
             - one platform member's signature by name → `syntax_help`;\n\
             - platform docs by keyword or meaning → `search`;\n\
             - conceptual how/why question on the platform or standards → `its_help`.\n\
             Tools: search, syntax_help, its_help. Every response is bounded by \
             `max_output_tokens`; a truncated one appends a continuation note.",
    );
    let text = REFERENCE_INSTRUCTIONS@;
    assert(stands_at(text, "its_help"@, 315)) by {
        reveal_strlit("its_help");
        assert(text.subrange(315, 323) =~= "its_help"@);
    }
    assert(stands_at(text, "search"@, 244)) by {
        reveal_strlit("search");
        assert(text.subrange(244, 250) =~= "search"@);
    }
    assert(stands_at(text, "syntax_help"@, 189)) by {
        reveal_strlit("syntax_help");
        assert(text.subrange(189, 200) =~= "syntax_help"@);
    }
}

/// Each profile has its own name.
pub proof fn a_profile_has_its_name(profile: McpProfile, name: &'static str)
    requires
        call_ensures(McpProfile::as_str, (profile,), name),
    ensures
        profile is Workspace ==> name@ == "workspace"@,
        profile is Reference ==> name@ == "reference"@,
{
}

/// What a client is told of a profile names each tool that a plain launch of it serves, and not the
/// one that a launch has to ask for.
pub proof fn a_client_is_told_of_every_plain_tool(profile: McpProfile, text: &'static str)
    requires
        call_ensures(profile_instructions, (profile,), text),
    ensures
        profile is Workspace ==> {
            &&& mentions(text@, "debug"@)
            &&& mentions(text@, "diagnostics"@)
            &&& mentions(text@, "event_log"@)
            &&& mentions(text@, "execute"@)
            &&& mentions(text@, "graph"@)
            &&& mentions(text@, "metadata"@)
            &&& mentions(text@, "outline"@)
            &&& mentions(text@, "query"@)
            &&& mentions(text@, "search"@)
            &&& mentions(text@, "symbol_info"@)
            &&& mentions(text@, "syntax_help"@)
            &&& !mentions(text@, "references"@)
        },
        profile is Reference ==> {
            &&& mentions(text@, "its_help"@)
            &&& mentions(text@, "search"@)
            &&& mentions(text@, "syntax_help"@)
        },
{
    match profile {
        McpProfile::Workspace => {
            lemma_workspace_tools_alone_are_mentioned();
        },
        McpProfile::Reference => {
            lemma_reference_tools_are_mentioned();
        },
    }
}

} // verus!
