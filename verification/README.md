# mcp-registry

A registry of MCP servers: registration, tool discovery, tool allow-lists,
health checks, and an audit trail of every change. The registry logic is a
Verus-verified library; a thin MCP server around it answers the registry's
tools over stdio.

## Layout

- `src/outside.rs` — the trusted boundary: the JSON value type, the clock,
  random UUIDs, and Unicode lowercasing, each with the contract it is
  believed to meet.
- `src/text.rs` — text helpers (equality, substring search, server ids).
- `src/types.rs` — the records and their mathematical views.
- `src/tools.rs` — tool names, discovery diffs, allow-list marking.
- `src/state.rs` — the registry state and the map of servers by id.
- `src/transitions.rs` — what each operation makes of a record.
- `src/store.rs` — `RegistryStore` and its operations, with contracts.
- `src/inputs.rs` — the request types and the conversion of discovered
  tool definitions.
- `src/laws.rs` — properties that hold across operations.
- `app/` — the MCP server: request decoding, JSON rendering, the process.
- `tests/` — scenario tests.
