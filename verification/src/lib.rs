//! Orchestration core for an automated software-project lifecycle.
//!
//! A set of pipeline stages regenerates document artifacts (requirements,
//! architecture, task list, test strategy) whenever an upstream artifact
//! becomes stale relative to a downstream one, and a development stage drives
//! a build/test retry-and-escalation loop around an external code agent.
//! This crate holds the decision logic of that engine — staleness detection,
//! activity-mode gating, the retry budget, the development cycle, instruction
//! and argument synthesis — as verified functions over plain values.
//! Process spawning, timers and the HTTP surface live outside the library and
//! consume these decisions.

pub mod agent;
pub mod cli;
pub mod devcycle;
pub mod init;
pub mod mode;
pub mod retry;
pub mod server;
pub mod stage;
pub mod staleness;
