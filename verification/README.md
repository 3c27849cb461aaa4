# codex-bridge-cli

A local bridge that accepts OpenAI Responses API requests from Codex CLI,
forwards them as Chat Completions requests to one upstream, and maps the
replies back.

Layout:

- `src/` is the verified library (Verus):
  - `config.rs`: the configuration sections, the defaults of optional
    fields, and startup validation with its error messages;
  - `provider.rs`: the reasoning capability descriptor;
  - `bridge.rs`: the shared state, upstream URL construction, the route
    table, upstream authentication, and how upstream replies are answered;
  - `text.rs`: white space and slash trimming over strings.
- `app/` is the program: command line, configuration file reading (YAML via
  serde), the axum server and the reqwest client. It acts on the decisions of
  the library. It expects the translation core (`app/proxy/`: request and
  response conversion, the SSE state machine, the response history and the
  error type) beside it.
- `tests/` exercises the library.
