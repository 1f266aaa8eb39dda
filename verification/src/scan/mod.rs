//! Project discovery: deciding from what a directory holds whether it is a
//! project, and what kind.
//!
//! Walking the filesystem and reading files happens outside this module;
//! everything here decides from the facts gathered about a directory.

pub mod detection;
pub mod exclude;
pub mod framework;
pub mod language;
pub mod package;
pub mod repo;
pub mod report;
pub mod walk;
