//! Local services run beside the Penpot window: health probes and the
//! orchestration of the sidecar profiles, and the search for the monorepo.
pub mod health;
pub mod orchestrator;
pub mod repo;
pub mod run;
