//! Decision core of the BSL analyzer MCP server.

pub mod text;
pub mod error;
pub mod ordered;
pub mod profile;
pub mod gate;
pub mod loads;
pub mod retry_window;
pub mod apply;
pub mod embed_flight;
pub mod embed_pass;
pub mod root_transition;
pub mod context_refresh;
pub mod overlay_warmup;
pub mod providers;
pub mod acquire;
pub mod refill;
pub mod answer;
pub mod search_types;
pub mod lexical;
pub mod semantic;
pub mod docs;
pub mod hybrid;
pub mod state;
pub mod search_command;
pub mod resident;
pub mod metadata;
pub mod query;
pub mod debug;
pub mod graph;
pub mod symbol_info;
pub mod diagnostics;
pub mod help;
pub mod json;
