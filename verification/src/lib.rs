//! What the daemon-startup orphan reaper decides and says.
//!
//! A binding ties an agent instance to a worktree, a branch and a task. At
//! startup the daemon sweeps bindings whose owner looks dead. This library holds
//! the rule by which one is swept, the order of the work that follows, and the
//! notices that go to the instance that lost its binding and to the orchestrator
//! of its team. Files, inboxes and the fleet are reached by the caller, which
//! carries out one [`reaping::Effect`] after another and reports back.

pub mod document;
pub mod fixture;
pub mod judgment;
pub mod laws;
pub mod notice;
pub mod promises;
pub mod reaping;
pub mod text;
