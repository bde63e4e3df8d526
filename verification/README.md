# antigravity_core_mcp

A four-in-one Model Context Protocol server (web-scraping bridge, crate
advisor, borrow-checker explainer, Rust pattern appliance) whose decisions and
text building are verified with Verus.

- `src/` — the verified library: `timeline` (reads `cargo check` JSON lines,
  keeps the compiler messages and draws an ASCII ownership timeline, spans
  stably sorted by line), `explain` (error-code
  manual), `appliance` (idiomatic lint and pattern catalogue), `crates`
  (registry addresses, status handling, search and crate summaries),
  `manifest` (the rate-limited `Cargo.toml` audit as a step machine),
  `firecrawl` (service settings and request bodies), `chassis` (server
  selection), `text` (character-level helpers), `error`.
- `app/` — the program: MCP transport, HTTP, the `cargo check` process and
  file access, calling the library for every decision.
- `tests/` — tests of the library on concrete values.
