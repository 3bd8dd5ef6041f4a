//! Which of its tools a launch serves.

use crate::ordered::{
    holds_name, insert_name, name_lt, sorted_names, sorted_names_are_determined_by_their_members,
};
use crate::profile::{
    instructions_of, lemma_reference_tools_are_mentioned,
    lemma_workspace_tools_alone_are_mentioned, mentions, McpProfile,
};
use crate::text::views;
use vstd::prelude::*;

verus! {

/// The tools that a profile declares, by name.
pub open spec fn declared_tools(profile: McpProfile) -> Seq<Seq<char>> {
    match profile {
        McpProfile::Workspace => seq![
            "debug"@,
            "diagnostics"@,
            "event_log"@,
            "execute"@,
            "graph"@,
            "metadata"@,
            "outline"@,
            "query"@,
            "references"@,
            "search"@,
            "symbol_info"@,
            "syntax_help"@,
        ],
        McpProfile::Reference => seq!["its_help"@, "search"@, "syntax_help"@],
    }
}

/// `name` is a tool that `profile` serves only where the launch asks for it.
pub open spec fn is_opt_in(profile: McpProfile, name: Seq<char>) -> bool {
    profile == McpProfile::Workspace && name == "references"@
}

/// A launch of `profile` that enables `enabled` hides `name`.
pub open spec fn launch_hides(
    profile: McpProfile,
    enabled: Seq<Seq<char>>,
    name: Seq<char>,
) -> bool {
    is_opt_in(profile, name) && !enabled.contains(name)
}

/// The tools that `profile` serves where `hides` picks the hidden ones.
pub open spec fn served(profile: McpProfile, hides: spec_fn(Seq<char>) -> bool) -> Seq<Seq<char>> {
    declared_tools(profile).filter(|name: Seq<char>| !hides(name))
}

/// The tools that a launch keeps from its clients.
#[derive(Debug, Clone, PartialEq, Eq)]
pub struct ToolGate {
    hidden: Vec<String>,
}

impl ToolGate {
    /// The hidden names.
    pub closed spec fn names(&self) -> Seq<Seq<char>> {
        views(self.hidden@)
    }

    /// The hidden names are distinct and sorted.
    pub open spec fn wf(&self) -> bool {
        sorted_names(self.names())
    }

    /// `name` is hidden.
    pub open spec fn hides(&self, name: Seq<char>) -> bool {
        self.names().contains(name)
    }

    /// A gate that hides `names`, whether or not a profile declares them.
    pub fn hiding(names: Vec<String>) -> (gate: Self)
        ensures
            gate.wf(),
            forall|name: Seq<char>| #[trigger] gate.hides(name) <==> views(names@).contains(name),
    {
        let mut hidden: Vec<String> = Vec::new();
        let mut i: usize = 0;
        while i < names.len()
            invariant
                i <= names.len(),
                sorted_names(views(hidden@)),
                forall|name: Seq<char>| #[trigger]
                    views(hidden@).contains(name) <==> views(names@).take(i as int).contains(name),
            decreases names.len() - i,
        {
            let ghost before = views(names@).take(i as int);
            let ghost after = views(names@).take(i as int + 1);
            insert_name(&mut hidden, names[i].clone());
            proof {
                assert(after =~= before.push(names@[i as int]@));
                assert forall|name: Seq<char>| #[trigger] after.contains(name) <==> (
                before.contains(name) || name == names@[i as int]@) by {
                    if before.contains(name) {
                        let k = choose|k: int| 0 <= k < before.len() && before[k] == name;
                        assert(after[k] == name);
                    }
                    assert(after[i as int] == names@[i as int]@);
                }
            }
            i = i + 1;
        }
        proof {
            assert(views(names@).take(names.len() as int) =~= views(names@));
        }
        ToolGate { hidden }
    }

    /// What a launch hides: the opt-in tools of the profile that the launch does not enable.
    pub fn for_launch(profile: McpProfile, enabled: &[String]) -> (gate: Self)
        ensures
            gate.wf(),
            forall|name: Seq<char>| #[trigger]
                gate.hides(name) <==> launch_hides(profile, views(enabled@), name),
    {
        let mut hidden: Vec<String> = Vec::new();
        let opt_in: Vec<&'static str> = opt_in_tools(profile);
        let mut i: usize = 0;
        while i < opt_in.len()
            invariant
                i <= opt_in.len(),
                forall|name: Seq<char>| #[trigger]
                    is_opt_in(profile, name) <==> exists|k: int|
                        0 <= k < opt_in@.len() && #[trigger] opt_in@[k]@ == name,
                sorted_names(views(hidden@)),
                forall|name: Seq<char>| #[trigger]
                    views(hidden@).contains(name) <==> (!views(enabled@).contains(name)
                        && exists|k: int| 0 <= k < i && #[trigger] opt_in@[k]@ == name),
            decreases opt_in.len() - i,
        {
            if !holds_name(enabled, opt_in[i]) {
                insert_name(&mut hidden, opt_in[i].to_owned());
            }
            i = i + 1;
        }
        ToolGate { hidden }
    }

    /// Whether `name` is hidden.
    pub fn is_hidden(&self, name: &str) -> (hidden: bool)
        ensures
            hidden == self.hides(name@),
    {
        holds_name(self.hidden.as_slice(), name)
    }

    /// The hidden names, in the order in which their routes are disabled.
    pub fn hidden_names(&self) -> (names: &Vec<String>)
        ensures
            views(names@) == self.names(),
    {
        &self.hidden
    }
}

impl Default for ToolGate {
    fn default() -> (gate: Self)
        ensures
            gate.wf(),
            forall|name: Seq<char>| !#[trigger] gate.hides(name),
    {
        ToolGate { hidden: Vec::new() }
    }
}

/// The tools of a profile that are served only where the launch asks for them.
pub fn opt_in_tools(profile: McpProfile) -> (names: Vec<&'static str>)
    ensures
        forall|name: Seq<char>| #[trigger]
            is_opt_in(profile, name) <==> exists|k: int|
                0 <= k < names@.len() && #[trigger] names@[k]@ == name,
{
    match profile {
        McpProfile::Workspace => {
            let names: Vec<&'static str> = vec!["references"];
            assert(names@[0]@ == "references"@);
            names
        },
        McpProfile::Reference => Vec::new(),
    }
}

/// The tools that a profile declares: its own and the shared ones.
pub fn profile_tools(profile: McpProfile) -> (names: Vec<&'static str>)
    ensures
        names@.len() == declared_tools(profile).len(),
        forall|i: int|
            0 <= i < names@.len() ==> (#[trigger] names@[i])@ == declared_tools(profile)[i],
{
    match profile {
        McpProfile::Workspace => vec![
            "debug",
            "diagnostics",
            "event_log",
            "execute",
            "graph",
            "metadata",
            "outline",
            "query",
            "references",
            "search",
            "symbol_info",
            "syntax_help",
        ],
        McpProfile::Reference => vec!["its_help", "search", "syntax_help"],
    }
}

/// The tools that a profile serves behind a gate.
pub fn gated_tools(profile: McpProfile, gate: &ToolGate) -> (names: Vec<String>)
    ensures
        views(names@) == served(profile, |name: Seq<char>| gate.hides(name)),
{
    let tools: Vec<&'static str> = profile_tools(profile);
    let ghost declared = declared_tools(profile);
    let ghost open = |name: Seq<char>| !gate.hides(name);
    let ghost hides = |name: Seq<char>| gate.hides(name);
    let mut names: Vec<String> = Vec::new();
    let mut i: usize = 0;
    while i < tools.len()
        invariant
            i <= tools.len(),
            declared == declared_tools(profile),
            open == (|name: Seq<char>| !gate.hides(name)),
            tools@.len() == declared.len(),
            forall|k: int| 0 <= k < tools@.len() ==> (#[trigger] tools@[k])@ == declared[k],
            views(names@) == declared.take(i as int).filter(open),
        decreases tools.len() - i,
    {
        let ghost before = names@;
        proof {
            reveal(Seq::filter);
            let ahead = declared.take(i as int + 1);
            assert(ahead.drop_last() =~= declared.take(i as int));
            assert(ahead.last() == tools@[i as int]@);
        }
        if !gate.is_hidden(tools[i]) {
            names.push(tools[i].to_owned());
            proof {
                assert(views(names@) =~= views(before).push(tools@[i as int]@));
            }
        }
        i = i + 1;
    }
    proof {
        assert(declared.take(tools.len() as int) =~= declared);
        assert(open =~= (|name: Seq<char>| !hides(name)));
    }
    names
}

/// Naming a tool that is served anyway changes nothing, and naming an opt-in tool serves it
/// and no other, wherever in the list it is named.
pub proof fn enabling_a_tool_serves_that_tool_alone(
    profile: McpProfile,
    enabled: Seq<Seq<char>>,
    at: int,
    added: Seq<char>,
    name: Seq<char>,
)
    requires
        0 <= at <= enabled.len(),
    ensures
        launch_hides(profile, enabled.insert(at, added), name) <==> (launch_hides(
            profile,
            enabled,
            name,
        ) && name != added),
        !is_opt_in(profile, added) ==> (launch_hides(profile, enabled.insert(at, added), name)
            <==> launch_hides(profile, enabled, name)),
{
    let more = enabled.insert(at, added);
    assert(more[at] == added);
    if enabled.contains(name) {
        let k = choose|k: int| 0 <= k < enabled.len() && enabled[k] == name;
        if k < at {
            assert(more[k] == name);
        } else {
            assert(more[k + 1] == name);
        }
    }
    if more.contains(name) && name != added {
        let k = choose|k: int| 0 <= k < more.len() && more[k] == name;
        if k < at {
            assert(enabled[k] == name);
        } else {
            assert(enabled[k - 1] == name);
        }
    }
}

/// Two gates that hide the same names hold the same list.
pub proof fn a_gate_is_determined_by_what_it_hides(a: ToolGate, b: ToolGate)
    requires
        a.wf(),
        b.wf(),
        forall|name: Seq<char>| #[trigger] a.hides(name) <==> b.hides(name),
    ensures
        a.names() == b.names(),
{
    assert forall|name: Seq<char>| #[trigger] a.names().contains(name) <==> b.names().contains(
        name,
    ) by {
        assert(a.hides(name) <==> b.hides(name));
    }
    sorted_names_are_determined_by_their_members(a.names(), b.names());
}

/// Every tool that is served is declared and not hidden, and every declared tool that is not
/// hidden is served.
pub proof fn served_tools_are_the_declared_ones_that_are_not_hidden(
    profile: McpProfile,
    hides: spec_fn(Seq<char>) -> bool,
    name: Seq<char>,
)
    ensures
        served(profile, hides).contains(name) <==> (declared_tools(profile).contains(name)
            && !hides(name)),
{
    let open = |name: Seq<char>| !hides(name);
    if served(profile, hides).contains(name) {
        declared_tools(profile).lemma_filter_contains_rev(open, name);
    }
    if declared_tools(profile).contains(name) && open(name) {
        let i = choose|i: int|
            0 <= i < declared_tools(profile).len() && declared_tools(profile)[i] == name;
        declared_tools(profile).lemma_filter_contains(open, i);
    }
}

/// The routing prose fits the default surface: whatever a launch that enables nothing serves is
/// named in it, and an opt-in tool is not.
pub proof fn the_instructions_name_the_default_tools_alone(
    profile: McpProfile,
    enabled: Seq<Seq<char>>,
    gate: ToolGate,
    name: Seq<char>,
)
    requires
        enabled.len() == 0,
        forall|hidden: Seq<char>| #[trigger]
            gate.hides(hidden) <==> launch_hides(profile, enabled, hidden),
    ensures
        served(profile, |hidden: Seq<char>| gate.hides(hidden)).contains(name) ==> mentions(
            instructions_of(profile),
            name,
        ),
        is_opt_in(profile, name) ==> !mentions(instructions_of(profile), name),
{
    let hides = |hidden: Seq<char>| gate.hides(hidden);
    served_tools_are_the_declared_ones_that_are_not_hidden(profile, hides, name);
    match profile {
        McpProfile::Workspace => {
            lemma_workspace_tools_alone_are_mentioned();
        },
        McpProfile::Reference => {
            lemma_reference_tools_are_mentioned();
        },
    }
    if served(profile, hides).contains(name) {
        assert(!gate.hides(name));
        let i = choose|i: int|
            0 <= i < declared_tools(profile).len() && declared_tools(profile)[i] == name;
        assert(name == declared_tools(profile)[i]);
    }
}

/// A gate hides exactly the names that it is made of, each once and in order, and none where it is
/// made of nothing.
pub proof fn a_gate_hides_what_it_is_made_of(
    names: Vec<String>,
    gate: ToolGate,
    open: ToolGate,
    name: Seq<char>,
)
    requires
        call_ensures(ToolGate::hiding, (names,), gate),
        call_ensures(ToolGate::default, (), open),
    ensures
        gate.names().contains(name) <==> exists|i: int|
            0 <= i < names@.len() && #[trigger] names@[i]@ == name,
        forall|i: int, j: int|
            0 <= i < j < gate.names().len() ==> name_lt(
                #[trigger] gate.names()[i],
                #[trigger] gate.names()[j],
            ),
        !open.names().contains(name),
{
    let list = views(names@);
    assert(gate.hides(name) <==> list.contains(name));
    assert(!open.hides(name));
    if list.contains(name) {
        let i = choose|i: int| 0 <= i < list.len() && list[i] == name;
        assert(names@[i]@ == name);
    }
    if exists|i: int| 0 <= i < names@.len() && #[trigger] names@[i]@ == name {
        let i = choose|i: int| 0 <= i < names@.len() && #[trigger] names@[i]@ == name;
        assert(list[i] == name);
    }
}

/// A launch hides the references of a workspace exactly where it does not enable them, and never
/// anything else.
pub proof fn a_launch_hides_the_references_alone(
    profile: McpProfile,
    enabled: &[String],
    gate: ToolGate,
    name: Seq<char>,
)
    requires
        call_ensures(ToolGate::for_launch, (profile, enabled), gate),
    ensures
        gate.names().contains(name) <==> profile is Workspace && name == "references"@ && forall|
            i: int,
        | 0 <= i < enabled@.len() ==> (#[trigger] enabled@[i])@ != "references"@,
{
    let list = views(enabled@);
    assert(gate.hides(name) <==> launch_hides(profile, list, name));
    if list.contains("references"@) {
        let i = choose|i: int| 0 <= i < list.len() && list[i] == "references"@;
        assert(enabled@[i]@ == "references"@);
    } else {
        assert forall|i: int| 0 <= i < enabled@.len() implies (#[trigger] enabled@[i])@
            != "references"@ by {
            assert(list[i] == enabled@[i]@);
        }
    }
}

/// A gate tells truly what it hides, name by name and as a list.
pub proof fn a_gate_tells_what_it_hides(
    gate: ToolGate,
    name: &str,
    hidden: bool,
    names: &Vec<String>,
)
    requires
        call_ensures(ToolGate::is_hidden, (&gate, name), hidden),
        call_ensures(ToolGate::hidden_names, (&gate,), names),
    ensures
        hidden <==> exists|i: int| 0 <= i < names@.len() && #[trigger] names@[i]@ == name@,
        hidden <==> gate.names().contains(name@),
        views(names@) == gate.names(),
{
    let list = views(names@);
    if list.contains(name@) {
        let i = choose|i: int| 0 <= i < list.len() && list[i] == name@;
        assert(names@[i]@ == name@);
    }
    if exists|i: int| 0 <= i < names@.len() && #[trigger] names@[i]@ == name@ {
        let i = choose|i: int| 0 <= i < names@.len() && #[trigger] names@[i]@ == name@;
        assert(list[i] == name@);
    }
}

/// A workspace has one tool that a launch has to ask for, and the reference has none.
pub proof fn only_the_references_are_asked_for(profile: McpProfile, names: Vec<&'static str>)
    requires
        call_ensures(opt_in_tools, (profile,), names),
    ensures
        forall|i: int| 0 <= i < names@.len() ==> profile is Workspace && (#[trigger] names@[i])@
            == "references"@,
        profile is Workspace ==> names@.len() > 0,
        profile is Reference ==> names@.len() == 0,
{
    assert forall|i: int| 0 <= i < names@.len() implies profile is Workspace && (
    #[trigger] names@[i])@ == "references"@ by {
        let name = names@[i]@;
        assert(exists|k: int| 0 <= k < names@.len() && #[trigger] names@[k]@ == name);
        assert(is_opt_in(profile, name));
    }
    if profile is Workspace {
        assert(is_opt_in(profile, "references"@));
        let k = choose|k: int| 0 <= k < names@.len() && #[trigger] names@[k]@ == "references"@;
        assert(0 <= k < names@.len());
    } else if names@.len() > 0 {
        assert(names@[0]@ == "references"@);
    }
}

/// A workspace declares twelve tools and the reference three, in the order of their names.
pub proof fn each_profile_declares_its_tools(profile: McpProfile, names: Vec<&'static str>)
    requires
        call_ensures(profile_tools, (profile,), names),
    ensures
        profile is Workspace ==> {
            &&& names@.len() == 12
            &&& names@[0]@ == "debug"@
            &&& names@[1]@ == "diagnostics"@
            &&& names@[2]@ == "event_log"@
            &&& names@[3]@ == "execute"@
            &&& names@[4]@ == "graph"@
            &&& names@[5]@ == "metadata"@
            &&& names@[6]@ == "outline"@
            &&& names@[7]@ == "query"@
            &&& names@[8]@ == "references"@
            &&& names@[9]@ == "search"@
            &&& names@[10]@ == "symbol_info"@
            &&& names@[11]@ == "syntax_help"@
        },
        profile is Reference ==> {
            &&& names@.len() == 3
            &&& names@[0]@ == "its_help"@
            &&& names@[1]@ == "search"@
            &&& names@[2]@ == "syntax_help"@
        },
{
}

/// `a` stands somewhere before `b` in the list.
pub open spec fn stand_in_order(list: Seq<Seq<char>>, a: Seq<char>, b: Seq<char>) -> bool {
    exists|p: int, q: int| 0 <= p < q < list.len() && #[trigger] list[p] == a && #[trigger] list[q] == b
}

proof fn lemma_a_filter_keeps_the_order(list: Seq<Seq<char>>, keeps: spec_fn(Seq<char>) -> bool)
    ensures
        forall|i: int, j: int|
            0 <= i < j < list.filter(keeps).len() ==> stand_in_order(
                list,
                #[trigger] list.filter(keeps)[i],
                #[trigger] list.filter(keeps)[j],
            ),
    decreases list.len(),
{
    reveal(Seq::filter);
    if list.len() > 0 {
        let rest = list.drop_last();
        lemma_a_filter_keeps_the_order(rest, keeps);
        let kept = list.filter(keeps);
        let before = rest.filter(keeps);
        assert forall|i: int, j: int| 0 <= i < j < kept.len() implies stand_in_order(
            list,
            #[trigger] kept[i],
            #[trigger] kept[j],
        ) by {
            if j < before.len() {
                assert(kept[i] == before[i] && kept[j] == before[j]);
                assert(stand_in_order(rest, before[i], before[j]));
                let (p, q) = choose|p: int, q: int|
                    0 <= p < q < rest.len() && #[trigger] rest[p] == before[i]
                        && #[trigger] rest[q] == before[j];
                assert(list[p] == kept[i] && list[q] == kept[j]);
            } else {
                assert(kept[i] == before[i]);
                assert(before.contains(before[i]));
                rest.lemma_filter_contains_rev(keeps, before[i]);
                let p = choose|p: int| 0 <= p < rest.len() && rest[p] == before[i];
                assert(list[p] == kept[i]);
                assert(list[list.len() - 1] == kept[j]);
            }
        }
    }
}

/// Tools are served in the order in which their profile declares them.
pub proof fn tools_are_served_in_their_order(
    profile: McpProfile,
    gate: ToolGate,
    tools: Vec<&'static str>,
    names: Vec<String>,
    i: int,
    j: int,
)
    requires
        call_ensures(profile_tools, (profile,), tools),
        call_ensures(gated_tools, (profile, &gate), names),
        0 <= i < j < names@.len(),
    ensures
        exists|p: int, q: int|
            0 <= p < q < tools@.len() && #[trigger] tools@[p]@ == names@[i]@
                && #[trigger] tools@[q]@ == names@[j]@,
{
    let declared = declared_tools(profile);
    let hides = |name: Seq<char>| gate.hides(name);
    let keeps = |name: Seq<char>| !hides(name);
    lemma_a_filter_keeps_the_order(declared, keeps);
    let list = views(names@);
    let open = served(profile, hides);
    assert(open == declared.filter(keeps));
    assert(list == open);
    assert(stand_in_order(declared, declared.filter(keeps)[i], declared.filter(keeps)[j]));
    let (p, q) = choose|p: int, q: int|
        0 <= p < q < declared.len() && #[trigger] declared[p] == list[i] && #[trigger] declared[q]
            == list[j];
    assert(tools@[p]@ == names@[i]@ && tools@[q]@ == names@[j]@);
}

/// A profile serves exactly those of its tools that its gate does not hide: every name in the list
/// is a tool of the profile, and every tool that is not hidden is in it.
pub proof fn what_is_not_hidden_is_served(
    profile: McpProfile,
    gate: ToolGate,
    names: Vec<String>,
    name: Seq<char>,
)
    requires
        call_ensures(gated_tools, (profile, &gate), names),
    ensures
        (exists|i: int| 0 <= i < names@.len() && #[trigger] names@[i]@ == name) <==> {
            &&& !gate.names().contains(name)
            &&& profile is Workspace ==> {
                ||| name == "debug"@
                ||| name == "diagnostics"@
                ||| name == "event_log"@
                ||| name == "execute"@
                ||| name == "graph"@
                ||| name == "metadata"@
                ||| name == "outline"@
                ||| name == "query"@
                ||| name == "references"@
                ||| name == "search"@
                ||| name == "symbol_info"@
                ||| name == "syntax_help"@
            }
            &&& profile is Reference ==> name == "its_help"@ || name == "search"@ || name
                == "syntax_help"@
        },
{
    let hides = |hidden: Seq<char>| gate.hides(hidden);
    let list = views(names@);
    served_tools_are_the_declared_ones_that_are_not_hidden(profile, hides, name);
    if list.contains(name) {
        let i = choose|i: int| 0 <= i < list.len() && list[i] == name;
        assert(names@[i]@ == name);
    }
    if exists|i: int| 0 <= i < names@.len() && #[trigger] names@[i]@ == name {
        let i = choose|i: int| 0 <= i < names@.len() && #[trigger] names@[i]@ == name;
        assert(list[i] == name);
    }
    let declared = declared_tools(profile);
    if declared.contains(name) {
        let i = choose|i: int| 0 <= i < declared.len() && declared[i] == name;
        assert(name == declared[i]);
    }
    match profile {
        McpProfile::Workspace => {
            assert(declared[0] == "debug"@);
            assert(declared[1] == "diagnostics"@);
            assert(declared[2] == "event_log"@);
            assert(declared[3] == "execute"@);
            assert(declared[4] == "graph"@);
            assert(declared[5] == "metadata"@);
            assert(declared[6] == "outline"@);
            assert(declared[7] == "query"@);
            assert(declared[8] == "references"@);
            assert(declared[9] == "search"@);
            assert(declared[10] == "symbol_info"@);
            assert(declared[11] == "syntax_help"@);
        },
        McpProfile::Reference => {
            assert(declared[0] == "its_help"@);
            assert(declared[1] == "search"@);
            assert(declared[2] == "syntax_help"@);
        },
    }
}

} // verus!
