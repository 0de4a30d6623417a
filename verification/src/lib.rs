//! An audit rule for CI workflow definitions that flags jobs targeting
//! self-hosted runners.
//!
//! Self-hosted runners may persist state between workflow runs, which makes
//! them dangerous to expose to workflows that untrusted parties can trigger.
//! This crate classifies a job's declared runner target — a list of labels,
//! a runner group, or a dynamically interpolated expression — into zero or
//! one findings, each carrying a confidence level.
//!
//! The check is opt-in ("pedantic" mode): the platform offers no reliable way
//! to tell whether a self-hosted runner is ephemeral, so flagging every such
//! job by default would be too noisy.

pub mod expr;
pub mod finding;
pub mod rule;
pub mod runner;
