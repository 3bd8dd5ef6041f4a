use mcp_server::debug::default_debug_port;
use mcp_server::gate::{gated_tools, opt_in_tools, profile_tools, ToolGate};
use mcp_server::graph::{
    body_budget, DEFAULT_DEPTH, DEFAULT_MAX_NODES, DEFAULT_OVERVIEW_TOP,
    DEFAULT_SOURCE_BUDGET_TOKENS,
};
use mcp_server::json::{document_search_action, Field, Json};
use mcp_server::profile::{profile_instructions, McpProfile};
use mcp_server::search_command::{output_budget, search_limit};

const PROFILES: [McpProfile; 2] = [McpProfile::Workspace, McpProfile::Reference];

#[test]
fn instructions_do_not_advertise_opt_in_tools() {
    for profile in [McpProfile::Workspace, McpProfile::Reference] {
        let prose = profile_instructions(profile);
        for name in opt_in_tools(profile) {
            assert!(
                !prose.contains(name),
                "{}: instructions name the opt-in tool `{name}`",
                profile.as_str()
            );
        }
    }
}

#[test]
fn profiles_have_their_names() {
    assert_eq!(McpProfile::Workspace.as_str(), "workspace");
    assert_eq!(McpProfile::Reference.as_str(), "reference");
}

#[test]
fn instructions_name_the_tools_of_the_default_surface_alone() {
    for profile in PROFILES {
        let prose = profile_instructions(profile);
        let gate = ToolGate::for_launch(profile, &[]);
        let served = gated_tools(profile, &gate);
        assert!(!served.is_empty());
        for name in &served {
            assert!(
                prose.contains(&format!("`{name}`")),
                "{}: instructions do not route to `{name}`",
                profile.as_str()
            );
        }
        for name in profile_tools(profile) {
            assert_eq!(prose.contains(name), served.iter().any(|tool| tool == name), "{name}");
        }
    }
}

#[test]
fn instructions_have_their_wording() {
    let workspace = profile_instructions(McpProfile::Workspace);
    assert!(workspace.starts_with("BSL Analyzer workspace MCP server"));
    assert!(workspace.contains("- find code by meaning or unknown name → `search`;\n"));
    assert!(workspace.contains("- one platform member's signature by name → `syntax_help`;\n"));
    assert!(workspace.ends_with("alone will not return more."));
    let reference = profile_instructions(McpProfile::Reference);
    assert!(reference.contains("Tools: search, syntax_help, its_help."));
    assert!(reference.ends_with("a truncated one appends a continuation note."));
}

#[test]
fn a_plain_launch_serves_everything_but_the_opt_in_tools() {
    let gate = ToolGate::for_launch(McpProfile::Workspace, &[]);
    assert_eq!(
        gated_tools(McpProfile::Workspace, &gate),
        [
            "debug",
            "diagnostics",
            "event_log",
            "execute",
            "graph",
            "metadata",
            "outline",
            "query",
            "search",
            "symbol_info",
            "syntax_help"
        ]
    );
    assert!(gate.is_hidden("references"));
    let gate = ToolGate::for_launch(McpProfile::Reference, &[]);
    assert_eq!(gated_tools(McpProfile::Reference, &gate), ["its_help", "search", "syntax_help"]);
    assert_eq!(gate, ToolGate::default());
}

#[test]
fn a_named_opt_in_tool_is_served() {
    let enabled = ["references".to_owned()];
    let gate = ToolGate::for_launch(McpProfile::Workspace, &enabled);
    assert_eq!(gate, ToolGate::default());
    assert_eq!(gated_tools(McpProfile::Workspace, &gate), profile_tools(McpProfile::Workspace));
}

#[test]
fn an_opt_in_tool_is_served_wherever_it_is_named() {
    for at in 0..=2 {
        let mut enabled = vec!["search".to_owned(), "debug".to_owned()];
        enabled.insert(at, "references".to_owned());
        assert_eq!(ToolGate::for_launch(McpProfile::Workspace, &enabled), ToolGate::default());
    }
}

#[test]
fn naming_a_served_or_unknown_tool_changes_nothing() {
    let enabled = ["search".to_owned(), "нет такого".to_owned()];
    for profile in PROFILES {
        assert_eq!(ToolGate::for_launch(profile, &enabled), ToolGate::for_launch(profile, &[]));
    }
}

#[test]
fn a_hidden_list_is_a_set() {
    let one = ToolGate::hiding(vec!["search".to_owned(), "debug".to_owned(), "search".to_owned()]);
    let two = ToolGate::hiding(vec!["debug".to_owned(), "search".to_owned()]);
    assert_eq!(one, two);
    assert_eq!(one.hidden_names(), &["debug", "search"]);
    assert!(one.is_hidden("debug") && !one.is_hidden("graph"));
    assert!(!gated_tools(McpProfile::Workspace, &one).contains(&"search".to_owned()));
    assert_eq!(gated_tools(McpProfile::Reference, &one), ["its_help", "syntax_help"]);
}

#[test]
fn names_sort_by_their_bytes() {
    let gate = ToolGate::hiding(
        ["я", "a", "Z", "ab", "", "🦀", "а"].iter().map(|name| name.to_string()).collect(),
    );
    assert_eq!(gate.hidden_names(), &["", "Z", "a", "ab", "а", "я", "🦀"]);
}

/// The headings of the contract of a plain launch: its tools, sorted by name.
fn contract(profile: McpProfile) -> String {
    let mut tools = gated_tools(profile, &ToolGate::for_launch(profile, &[]));
    tools.sort();
    tools.iter().map(|name| format!("## {name}\n")).collect()
}

/// The description that the action of a search parameter is published with.
fn described_action() -> Json {
    let field = |key: &str, value| Field { key: key.to_owned(), value };
    let action = Json::Object(vec![field("type", Json::Text("string".to_owned()))]);
    let properties = Json::Object(vec![field("action", action)]);
    let mut schema = document_search_action(&Json::Object(vec![field("properties", properties)]));
    for key in ["properties", "action", "description"] {
        let Json::Object(fields) = schema else { panic!("no object holds {key}") };
        let found = fields.into_iter().find(|field| field.key == key);
        schema = found.unwrap_or_else(|| panic!("no {key}")).value;
    }
    schema
}

#[test]
fn workspace_tools_contract() {
    assert_eq!(
        contract(McpProfile::Workspace),
        "## debug\n## diagnostics\n## event_log\n## execute\n## graph\n## metadata\n\
         ## outline\n## query\n## search\n## symbol_info\n## syntax_help\n"
    );
    assert_eq!(
        described_action(),
        Json::Text("Requested search, platform-listing, or lifecycle action.".to_owned())
    );
    // The defaults that the parameters are published with.
    assert_eq!(default_debug_port(), 1550);
    assert_eq!(output_budget(None), 6000);
    assert_eq!((DEFAULT_SOURCE_BUDGET_TOKENS, body_budget(None)), (4000, 6000));
    assert_eq!((DEFAULT_DEPTH, DEFAULT_MAX_NODES, DEFAULT_OVERVIEW_TOP), (1, 50, 20));
    assert_eq!((search_limit(None), search_limit(Some(51))), (10, 50));
}

#[test]
fn reference_tools_contract() {
    assert_eq!(contract(McpProfile::Reference), "## its_help\n## search\n## syntax_help\n");
    assert_eq!(
        described_action(),
        Json::Text("Requested search, platform-listing, or lifecycle action.".to_owned())
    );
    assert_eq!(output_budget(None), 6000);
    assert_eq!((search_limit(None), search_limit(Some(51))), (10, 50));
}
