//! The command-line front end's logic: its commands, what it prints, and
//! how it decides what to do.

pub mod update;
pub mod output;
pub mod commands;
