# mcp_server

The decisions of an MCP server for 1C:Enterprise (BSL) configurations, as a verified library,
and the server around them.

`src/` holds what the server decides: which tools a launch serves, how a request is read and
routed, what a search asks and in which order, when a write to the search index is retried, and
what is reported when something is missing. Work that only the outside can do (locks, threads,
the search engine, the baseline, the embedder) is asked for one question at a time: each question
is a value that takes its answer and gives the next step. The contracts state every step, and the
laws speak of whole runs, for every host.

| Modules | What they decide |
| --- | --- |
| `profile`, `gate`, `ordered` | the profiles, their instructions and the tools a launch serves |
| `search_command`, `metadata`, `query`, `debug`, `graph`, `symbol_info`, `diagnostics`, `help` | what a request asks for, and with which error it is refused |
| `loads` | the builds that a request starts |
| `providers`, `resident`, `answer` | what is said of a source that did not answer |
| `acquire`, `lexical`, `semantic`, `refill`, `hybrid`, `docs`, `search_types` | the searches of code and documentation |
| `embed_flight`, `embed_pass`, `overlay_warmup`, `retry_window` | embedding in the background, and its retries |
| `apply`, `root_transition`, `context_refresh` | writes under the workspace lease, and what follows a publication of the graph |
| `state` | connections, roots, and the order of a shutdown |
| `json`, `text`, `error` | JSON values and schemas, texts, protocol errors |

`tests/` runs the library. `app/` is ordinary Rust: the protocol, its parameters, the threads and
the locks. The engine, the baseline and the analyzer are handed to it through traits.

The library trusts three constructors of `rmcp::ErrorData`, in `error`.
