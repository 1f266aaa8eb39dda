//! Shared domain models: ids, errors, time, activity, git state, vobes.

pub mod activity;
pub mod error;
pub mod git;
pub mod plugins;
pub mod time;
pub mod vobe;
