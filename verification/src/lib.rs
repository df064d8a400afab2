//! Configuration, endpoint derivation and sidecar orchestration logic of the
//! Penpot desktop shell, with the decisions proved against their contracts.
//! Everything that talks to the outside world (the window toolkit, files,
//! HTTP, child processes, the environment) is done by the caller, which hands
//! plain values to the functions of this crate.
pub mod text;
pub mod config;
pub mod codex;
pub mod mcp_health;
pub mod commands;
pub mod shell;
pub mod sidecar;
