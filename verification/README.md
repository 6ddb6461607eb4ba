# gphotos_mcp_rust

An MCP server for Google Photos. The library in `src/` is verified with
Verus; `app/` is the HTTP server around it.

- `src/text.rs`: character-level string helpers (decimal numbers, `u16`
  parsing, searches), with specifications.
- `src/json.rs`: a plain JSON model with member lookup and update.
- `src/state.rs`: the pending OAuth `state` values, single-use and expiring.
- `src/urls.rs`: URLs with a form-encoded query, built and read back through
  the `url` crate.
- `src/config.rs`: the configuration and its defaults.
- `src/auth.rs`: the authorization URL, token requests and stored tokens.
- `src/photos.rs`: the requests of the Photos Library and Picker APIs.
- `src/mcp.rs`: JSON-RPC responses, the tool catalogue and tool calls.
- `app/`: environment, network, disk and the axum routes.
