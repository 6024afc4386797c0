# matrix_mcp_server_r2

A Model Context Protocol server for Matrix. The library under `src/` is
verified with Verus; `app/` is the program around it.

- `src/config.rs`: reading the settings from environment variables and checking them.
- `src/matrix/`: the time-to-live client cache, identifier checks (through `ruma`)
  and the decisions of the client's start-up and sync loop.
- `src/mcp/`: the text of every tool's answer, message parsing, date ranges,
  activity ranking, the streaming and agent endpoints, the health report and
  the CORS origin list.
- `src/tools/`: the tool registry entries: names, descriptions, argument
  schemas and answers.
- `src/json.rs`, `src/text.rs`: JSON values with their mathematical view, and
  text helpers.

`app/` reads the environment, talks to the homeserver through `matrix-sdk`,
serves HTTP with `axum` and `rmcp`, and converts between the library's values
and those of the outside crates.
