# penpot_desktop

The logic of the Penpot desktop shell, verified with Verus: the saved
settings and the URIs derived from them, the Codex snippets, the MCP health
report, the sidecar profiles brought up as a state machine, the search for
the Penpot monorepo, and the orchestrator's record of what it started.

- `src/text.rs` — trimming, prefix and substring tests, decimal rendering.
- `src/config.rs` — sidecar profiles, settings, environment overrides, URIs.
- `src/codex.rs` — the Codex CLI snippets (with `urlencoding` for tokens).
- `src/mcp_health.rs` — the MCP stream check report.
- `src/sidecar/` — probes and the wait for an endpoint, the run state
  machine, the monorepo search, the orchestrator.
- `src/commands.rs`, `src/shell.rs` — the decisions behind the shell's
  commands, menus, popups and dialogs.
- `app/` — the tauri shell, files, HTTP and processes around the library.
- `tests/` — tests of the library on concrete values.
