//! Storage: filters and sort orders, the database layout, how rows encode
//! vobes and activity, and export snapshots.

pub mod rows;
pub mod query;
pub mod schema;
pub mod snapshot;
