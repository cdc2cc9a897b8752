//! Orchestration core for concurrent coding-agent sessions: a registry of
//! pseudo-terminal sessions, and git-worktree sandboxes, one per session.
//!
//! - `registry`: the sessions, their records and control ports.
//! - `events`: what a session's output reader sends to the event sink.
//! - `sandbox`: creating, listing and removing sandboxes.
//! - `commands`: the defaults applied to requests of the command layer.

pub mod commands;
pub mod events;
pub mod registry;
pub mod sandbox;
