//! Vobes: project discovery, models and rules, verified.

pub mod text;
pub mod path;
pub mod path_laws;
pub mod model;
pub mod scan;
pub mod config;
pub mod activity;
pub mod store;
pub mod gitstate;
pub mod cli;
pub mod mcp;
pub mod desktop;
