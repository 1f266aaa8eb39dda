//! The desktop app's logic: what it sends to its interface, which programs
//! it launches, and how it reads projects for notes and context.

pub mod platform;
pub mod apps;
pub mod dto;
pub mod todos;
pub mod commands;
pub mod snapshots;
