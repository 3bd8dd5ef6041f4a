//! Requests about one symbol: what it is, and where it is used.

use crate::error::{
    invalid_params, plain_error, refused, refuses, ErrorView, McpError, INVALID_PARAMS,
};
use crate::loads::{nothing, resident_alone, Loads};
use crate::providers::{Freshness, ResidentOutcome};
use crate::search_command::{budget_of, output_budget};
use vstd::prelude::*;

verus! {

/// The kinds of members that an answer can be narrowed to.
#[derive(Debug, Clone, Copy, PartialEq, Eq, Structural)]
pub enum SymbolMemberKindFilter {
    Attribute,
    TabularSection,
    Method,
    Variable,
    Property,
    FormAttribute,
    FormElement,
    Handler,
}

impl SymbolMemberKindFilter {
    /// The name of the kind.
    pub open spec fn name(self) -> Seq<char> {
        match self {
            SymbolMemberKindFilter::Attribute => "attribute"@,
            SymbolMemberKindFilter::TabularSection => "tabular_section"@,
            SymbolMemberKindFilter::Method => "method"@,
            SymbolMemberKindFilter::Variable => "variable"@,
            SymbolMemberKindFilter::Property => "property"@,
            SymbolMemberKindFilter::FormAttribute => "form_attribute"@,
            SymbolMemberKindFilter::FormElement => "form_element"@,
            SymbolMemberKindFilter::Handler => "handler"@,
        }
    }

    /// The name of the kind.
    pub fn as_str(self) -> (name: &'static str)
        ensures
            name@ == self.name(),
    {
        match self {
            SymbolMemberKindFilter::Attribute => "attribute",
            SymbolMemberKindFilter::TabularSection => "tabular_section",
            SymbolMemberKindFilter::Method => "method",
            SymbolMemberKindFilter::Variable => "variable",
            SymbolMemberKindFilter::Property => "property",
            SymbolMemberKindFilter::FormAttribute => "form_attribute",
            SymbolMemberKindFilter::FormElement => "form_element",
            SymbolMemberKindFilter::Handler => "handler",
        }
    }
}

/// A request about a symbol, by its name, by a position, or by both.
#[derive(Debug, Clone, PartialEq, Eq)]
pub struct SymbolInfoParams {
    pub symbol: Option<String>,
    pub root_id: Option<String>,
    pub path: Option<String>,
    pub line: Option<u32>,
    pub column: Option<u32>,
    pub include_sections: Vec<String>,
    pub member_kind: Option<SymbolMemberKindFilter>,
    pub member_name: Option<String>,
    pub locale: Option<String>,
    pub max_output_tokens: Option<usize>,
}

impl SymbolInfoParams {
    /// Something of a position is given.
    pub open spec fn mentions_a_position(self) -> bool {
        self.root_id is Some || self.path is Some || self.line is Some || self.column is Some
    }

    /// A position is given: a path and a line.
    pub open spec fn has_a_position(self) -> bool {
        self.path is Some && self.line is Some
    }
}

/// Why a request about a symbol is refused before anything is read.
pub open spec fn symbol_refusal(p: SymbolInfoParams, well_formed: bool) -> Option<Seq<char>> {
    if p.symbol is Some && !well_formed {
        Some("'symbol' must be a dot-separated sequence of identifiers"@)
    } else if p.mentions_a_position() && !p.has_a_position() {
        Some("positional context requires both 'path' and 'line'"@)
    } else if p.symbol is None && !p.has_a_position() {
        Some("one of 'symbol' or 'path'+'line' is required"@)
    } else {
        None
    }
}

/// Decides whether a request about a symbol can be answered. `well_formed` says whether the
/// name, where one is given, is one. A name and a whole position may come together; half a
/// position is refused, also beside a name.
pub fn symbol_info(p: &SymbolInfoParams, well_formed: bool) -> (result: Result<usize, McpError>)
    ensures
        match symbol_refusal(*p, well_formed) {
            Some(text) => refused(result, text),
            None => result == Ok::<usize, McpError>(budget_of(p.max_output_tokens)),
        },
{
    if p.symbol.is_some() && !well_formed {
        return Err(
            invalid_params("'symbol' must be a dot-separated sequence of identifiers".to_owned()),
        );
    }
    let mentioned: bool = p.root_id.is_some() || p.path.is_some() || p.line.is_some()
        || p.column.is_some();
    let complete: bool = p.path.is_some() && p.line.is_some();
    if mentioned && !complete {
        return Err(
            invalid_params("positional context requires both 'path' and 'line'".to_owned()),
        );
    }
    if p.symbol.is_none() && !complete {
        return Err(invalid_params("one of 'symbol' or 'path'+'line' is required".to_owned()));
    }
    Ok(output_budget(p.max_output_tokens))
}

/// The builds that a request about a symbol starts. One that is refused starts none; else the
/// card is read of the resident workspace, and the graph, which only adds to it, is started once
/// the language of the answer is understood.
pub open spec fn symbol_builds(
    p: SymbolInfoParams,
    well_formed: bool,
    locale_understood: bool,
) -> Loads {
    if symbol_refusal(p, well_formed) is Some {
        nothing()
    } else {
        Loads { graph: locale_understood, resident: true, reference: false }
    }
}

/// The builds that a request about a symbol starts, before anything is read of them.
pub fn symbol_loads(p: &SymbolInfoParams, well_formed: bool, locale_understood: bool) -> (loads:
    Loads)
    ensures
        loads == symbol_builds(*p, well_formed, locale_understood),
{
    match symbol_info(p, well_formed) {
        Ok(_) => Loads { graph: locale_understood, resident: true, reference: false },
        Err(_) => Loads { graph: false, resident: false, reference: false },
    }
}

/// A request that is let through names a symbol or a whole position, and never half a position.
pub proof fn an_answerable_request_names_something(p: SymbolInfoParams, well_formed: bool)
    requires
        symbol_refusal(p, well_formed) is None,
    ensures
        p.symbol is Some || p.has_a_position(),
        p.mentions_a_position() ==> p.has_a_position(),
        p.symbol is Some ==> well_formed,
{
}

/// Whether a read that found no symbol is tried once more after the workspace was looked over
/// again: only a name can have missed something new.
pub fn symbol_rescans(by_name: bool, found_nothing: bool) -> (again: bool)
    ensures
        again == (by_name && found_nothing),
{
    by_name && found_nothing
}

/// The state of the workspace that an answer was read from.
#[derive(Debug, Clone, Copy, PartialEq, Eq, Structural)]
pub struct ResidentStamp {
    pub revision: u64,
    pub topology: u64,
    pub stale: bool,
    pub unread_files: usize,
}

/// What a request about a symbol does next. `K` is the card of a symbol, `N` the rendered
/// candidates for a name.
#[derive(Debug, Clone, PartialEq, Eq)]
pub enum SymbolStep<K, N> {
    /// Narrow the members of the card, then render it.
    RenderCard { card: K, stamp: ResidentStamp },
    /// Look for names like the one that was asked for.
    LookUpNames(AwaitNames),
    /// Report that there is no such symbol, with the candidates.
    RenderNotFound { symbol: String, candidates: N, stamp: ResidentStamp },
    /// The workspace is still being loaded; ask again.
    Loading,
    /// The database of the workspace failed; the text says how.
    DatabaseError(String),
    Refused(McpError),
}

#[derive(Debug, Clone, PartialEq, Eq)]
pub struct AwaitNames {
    pub symbol: String,
    pub stamp: ResidentStamp,
}

/// What a read for a symbol found: its card, where there is one, and the files that the
/// workspace could not read.
#[derive(Debug, Clone, PartialEq, Eq)]
pub struct CardRead<K> {
    pub card: Option<K>,
    pub unread_files: usize,
}

/// The state of the workspace that an answer was read from.
pub open spec fn stamp_of(freshness: Freshness, unread_files: usize) -> ResidentStamp {
    ResidentStamp {
        revision: freshness.revision,
        topology: freshness.topology,
        stale: freshness.stale,
        unread_files,
    }
}

/// The text of a symbol that was asked for by its position.
pub open spec fn symbol_text(symbol: Option<String>) -> Seq<char> {
    match symbol {
        Some(symbol) => symbol@,
        None => Seq::empty(),
    }
}

/// Goes on from the read for a symbol: a card is rendered, and for a missing one the names that
/// are like it are looked for.
pub fn symbol_read<K, N>(
    symbol: Option<String>,
    outcome: ResidentOutcome<Result<CardRead<K>, McpError>>,
) -> (step: SymbolStep<K, N>)
    ensures
        match outcome {
            ResidentOutcome::Ready(Ok(read), freshness) => {
                let stamp = stamp_of(freshness, read.unread_files);
                match read.card {
                    Some(card) => step == (SymbolStep::<K, N>::RenderCard { card, stamp }),
                    None => step matches SymbolStep::LookUpNames(ask) && ask.stamp == stamp
                        && ask.symbol@ == symbol_text(symbol),
                }
            },
            ResidentOutcome::Ready(Err(error), _) => step == SymbolStep::<K, N>::Refused(error),
            ResidentOutcome::Loading => step == SymbolStep::<K, N>::Loading,
            ResidentOutcome::Disabled => step matches SymbolStep::Refused(error) && error@
                == plain_error(
                INVALID_PARAMS,
                "symbol_info is only available in the workspace profile"@,
            ),
            ResidentOutcome::Failed(message) => step == SymbolStep::<K, N>::DatabaseError(message),
        },
{
    match outcome {
        ResidentOutcome::Ready(Ok(read), freshness) => {
            let stamp: ResidentStamp = ResidentStamp {
                revision: freshness.revision,
                topology: freshness.topology,
                stale: freshness.stale,
                unread_files: read.unread_files,
            };
            match read.card {
                Some(card) => SymbolStep::RenderCard { card, stamp },
                None => {
                    let symbol: String = match symbol {
                        Some(symbol) => symbol,
                        None => String::new(),
                    };
                    SymbolStep::LookUpNames(AwaitNames { symbol, stamp })
                },
            }
        },
        ResidentOutcome::Ready(Err(error), _) => SymbolStep::Refused(error),
        ResidentOutcome::Loading => SymbolStep::Loading,
        ResidentOutcome::Disabled => SymbolStep::Refused(
            invalid_params("symbol_info is only available in the workspace profile".to_owned()),
        ),
        ResidentOutcome::Failed(message) => SymbolStep::DatabaseError(message),
    }
}

impl AwaitNames {
    /// The names were looked for, or the workspace did not hand anything over.
    pub fn answer<K, N>(self, names: ResidentOutcome<N>) -> (step: SymbolStep<K, N>)
        ensures
            step == match names {
                ResidentOutcome::Ready(candidates, _) => SymbolStep::<K, N>::RenderNotFound {
                    symbol: self.symbol,
                    candidates,
                    stamp: self.stamp,
                },
                _ => SymbolStep::Loading,
            },
    {
        match names {
            ResidentOutcome::Ready(candidates, _) => SymbolStep::RenderNotFound {
                symbol: self.symbol,
                candidates,
                stamp: self.stamp,
            },
            _ => SymbolStep::Loading,
        }
    }
}

/// The tokens of an answer with references, where the request sets no bound.
pub const DEFAULT_REFERENCES_BUDGET_TOKENS: usize = 6000;

/// The tokens that an answer with references may take.
pub fn references_budget(max_output_tokens: Option<usize>) -> (budget: usize)
    ensures
        budget == match max_output_tokens {
            Some(tokens) => tokens,
            None => DEFAULT_REFERENCES_BUDGET_TOKENS,
        },
{
    match max_output_tokens {
        Some(tokens) => tokens,
        None => DEFAULT_REFERENCES_BUDGET_TOKENS,
    }
}

/// Why a request for references has nothing to start from.
#[derive(Debug, Clone, Copy, PartialEq, Eq, Structural)]
pub enum AnchorRefusal {
    /// The content of a line is given, but not the file that holds it.
    ContentNeedsPath,
    /// Neither a symbol nor a file is given.
    NoAnchor,
}

/// Decides whether a request for references has something to start from: a symbol or a path.
pub fn references_anchor(has_symbol: bool, has_path: bool, has_line_content: bool) -> (result:
    Result<(), AnchorRefusal>)
    ensures
        result == if has_symbol || has_path {
            Ok::<(), AnchorRefusal>(())
        } else if has_line_content {
            Err(AnchorRefusal::ContentNeedsPath)
        } else {
            Err(AnchorRefusal::NoAnchor)
        },
{
    if has_symbol || has_path {
        Ok(())
    } else if has_line_content {
        Err(AnchorRefusal::ContentNeedsPath)
    } else {
        Err(AnchorRefusal::NoAnchor)
    }
}

/// The builds that a request for references starts: the resident workspace, where there is
/// something to start from. The graph is asked as it is.
pub fn references_loads(has_symbol: bool, has_path: bool) -> (loads: Loads)
    ensures
        loads == if has_symbol || has_path {
            resident_alone()
        } else {
            nothing()
        },
{
    Loads { graph: false, resident: has_symbol || has_path, reference: false }
}

/// A request about a symbol is let through exactly where its name, if it has one, is a name, its
/// position, if it mentions one, has a path and a line, and it has at least one of the two. It may
/// then take the tokens that it asks for, or 6000. Else it is told what is wrong: the name first,
/// then half a position, then that nothing is named.
pub proof fn a_request_about_a_symbol_names_it(
    p: SymbolInfoParams,
    well_formed: bool,
    result: Result<usize, McpError>,
)
    requires
        call_ensures(symbol_info, (&p, well_formed), result),
    ensures
        ({
            let named = p.symbol is Some;
            let placed = p.path is Some && p.line is Some;
            let half = !placed && (p.path is Some || p.line is Some || p.column is Some || p.root_id
                is Some);
            &&& result is Ok <==> (named ==> well_formed) && !half && (named || placed)
            &&& result matches Ok(tokens) ==> (p.max_output_tokens matches Some(asked) ==> tokens
                == asked) && (p.max_output_tokens is None ==> tokens == 6000)
            &&& named && !well_formed ==> refuses(
                result->Err_0,
                "'symbol' must be a dot-separated sequence of identifiers"@,
            )
            &&& (named ==> well_formed) && half ==> refuses(
                result->Err_0,
                "positional context requires both 'path' and 'line'"@,
            )
            &&& !named && !half && !placed ==> refuses(
                result->Err_0,
                "one of 'symbol' or 'path'+'line' is required"@,
            )
        }),
{
}

/// A request that is refused starts nothing. Another one starts the resident workspace, and the
/// graph too where its language is understood.
pub proof fn a_request_about_a_symbol_starts_what_it_reads(
    p: SymbolInfoParams,
    well_formed: bool,
    locale_understood: bool,
    loads: Loads,
)
    requires
        call_ensures(symbol_loads, (&p, well_formed, locale_understood), loads),
    ensures
        ({
            let named = p.symbol is Some;
            let placed = p.path is Some && p.line is Some;
            let half = !placed && (p.path is Some || p.line is Some || p.column is Some || p.root_id
                is Some);
            let answerable = (named ==> well_formed) && !half && (named || placed);
            &&& loads.resident <==> answerable
            &&& loads.graph <==> answerable && locale_understood
            &&& !loads.reference
        }),
{
}

/// A card that was found is rendered, with the state that it was read from and the files that could
/// not be read. Without one, names like the symbol are looked for in the same state. A workspace
/// that is loading, switched off or broken is said to be, and an error of the read is handed on.
pub proof fn a_card_is_rendered_from_the_state_it_was_read_from<K, N>(
    symbol: Option<String>,
    outcome: ResidentOutcome<Result<CardRead<K>, McpError>>,
    step: SymbolStep<K, N>,
)
    requires
        call_ensures(symbol_read::<K, N>, (symbol, outcome), step),
    ensures
        outcome matches ResidentOutcome::Ready(Ok(read), freshness) ==> {
            &&& step is RenderCard <==> read.card is Some
            &&& step is LookUpNames <==> read.card is None
            &&& step matches SymbolStep::RenderCard { card, stamp } ==> Some(card) == read.card
                && stamp.revision == freshness.revision && stamp.topology == freshness.topology
                && stamp.stale == freshness.stale && stamp.unread_files == read.unread_files
            &&& step matches SymbolStep::LookUpNames(ask) ==> {
                &&& ask.stamp.revision == freshness.revision
                &&& ask.stamp.topology == freshness.topology
                &&& ask.stamp.stale == freshness.stale
                &&& ask.stamp.unread_files == read.unread_files
                &&& symbol matches Some(name) ==> ask.symbol@ == name@
                &&& symbol is None ==> ask.symbol@.len() == 0
            }
        },
        outcome matches ResidentOutcome::Ready(Err(error), _) ==> (step
            matches SymbolStep::Refused(given) && given == error),
        outcome is Loading <==> step is Loading,
        outcome is Disabled ==> (step matches SymbolStep::Refused(error) && refuses(
            error,
            "symbol_info is only available in the workspace profile"@,
        )),
        outcome matches ResidentOutcome::Failed(message) ==> (step
            matches SymbolStep::DatabaseError(given) && given == message),
{
}

/// Names that were found stand beside the symbol and the state of the first read. Where the
/// workspace handed nothing over, the request is to be asked again.
pub proof fn names_stand_beside_the_first_read<K, N>(
    ask: AwaitNames,
    names: ResidentOutcome<N>,
    step: SymbolStep<K, N>,
    by_name: bool,
    found_nothing: bool,
    again: bool,
)
    requires
        call_ensures(AwaitNames::answer::<K, N>, (ask, names), step),
        call_ensures(symbol_rescans, (by_name, found_nothing), again),
    ensures
        names matches ResidentOutcome::Ready(found, _) ==> (step
            matches SymbolStep::RenderNotFound { symbol, candidates, stamp } && symbol == ask.symbol
            && candidates == found && stamp == ask.stamp),
        !(names is Ready) ==> step is Loading,
        again <==> by_name && found_nothing,
{
}

/// References start from a symbol or a file, and only then start the resident workspace. The
/// content of a line alone is told that it needs its file. They take the tokens that are asked for,
/// or 6000.
pub proof fn references_start_from_something(
    has_symbol: bool,
    has_path: bool,
    has_line_content: bool,
    anchor: Result<(), AnchorRefusal>,
    loads: Loads,
    asked: Option<usize>,
    budget: usize,
)
    requires
        call_ensures(references_anchor, (has_symbol, has_path, has_line_content), anchor),
        call_ensures(references_loads, (has_symbol, has_path), loads),
        call_ensures(references_budget, (asked,), budget),
    ensures
        anchor is Ok <==> has_symbol || has_path,
        anchor matches Err(refusal) ==> (refusal is ContentNeedsPath <==> has_line_content),
        loads.resident <==> has_symbol || has_path,
        !loads.graph && !loads.reference,
        asked matches Some(tokens) ==> budget == tokens,
        asked is None ==> budget == 6000,
{
}

/// Every kind of member has a name of its own.
pub proof fn every_kind_of_member_has_its_name(kind: SymbolMemberKindFilter, name: &'static str)
    requires
        call_ensures(SymbolMemberKindFilter::as_str, (kind,), name),
    ensures
        kind is Attribute ==> name@ == "attribute"@,
        kind is TabularSection ==> name@ == "tabular_section"@,
        kind is Method ==> name@ == "method"@,
        kind is Variable ==> name@ == "variable"@,
        kind is Property ==> name@ == "property"@,
        kind is FormAttribute ==> name@ == "form_attribute"@,
        kind is FormElement ==> name@ == "form_element"@,
        kind is Handler ==> name@ == "handler"@,
{
}

} // verus!
