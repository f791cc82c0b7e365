//! Mirrors the repositories visible to an account on a source Git-hosting
//! service to local disk, and optionally re-publishes them to a backup
//! hosting service, recreating the group hierarchy there.
//!
//! The crate holds the mirroring engine's logic: inventory filtering,
//! paginated listing, namespace resolution, local branch reconciliation,
//! and the orchestration policy. Network and subprocess plumbing live with
//! the caller, which drives the state machines defined here.

pub mod client;
pub mod config;
pub mod errors;
pub mod gitsync;
pub mod namespace;
pub mod orchestrator;
pub mod pattern;
pub mod strutil;
pub mod types;
