//! The database schema, its migrations, and the fixed statements.

use vstd::prelude::*;

verus! {

/// Current schema version.
pub const SCHEMA_VERSION: u32 = 4;

/// Initial schema: the `schema_version`, `vobes` and `activity` tables and
/// their indexes.
pub const SCHEMA_V1: &'static str = "
CREATE TABLE IF NOT EXISTS schema_version (
    version INTEGER PRIMARY KEY
);

CREATE TABLE IF NOT EXISTS vobes (
    id              TEXT PRIMARY KEY,
    name            TEXT NOT NULL,
    path            TEXT NOT NULL UNIQUE,
    framework       TEXT,
    language        TEXT,
    package_manager TEXT,
    created_at      TEXT NOT NULL,
    last_opened     TEXT,
    last_modified   TEXT,
    tags            TEXT NOT NULL DEFAULT '[]',
    notes           TEXT,
    metadata        TEXT NOT NULL DEFAULT '{}',
    git_branch      TEXT,
    git_dirty       INTEGER NOT NULL DEFAULT 0,
    git_ahead       INTEGER NOT NULL DEFAULT 0,
    git_behind      INTEGER NOT NULL DEFAULT 0,
    git_last_hash   TEXT,
    git_last_msg    TEXT,
    git_last_author TEXT,
    git_last_date   TEXT,
    refreshed_at    TEXT
);

CREATE TABLE IF NOT EXISTS activity (
    id          INTEGER PRIMARY KEY AUTOINCREMENT,
    vobe_id     TEXT NOT NULL REFERENCES vobes(id) ON DELETE CASCADE,
    kind        TEXT NOT NULL,
    timestamp   TEXT NOT NULL,
    detail      TEXT
);

CREATE INDEX IF NOT EXISTS idx_activity_vobe ON activity(vobe_id, timestamp DESC);
CREATE INDEX IF NOT EXISTS idx_activity_time ON activity(timestamp DESC);
";

/// Version 2: the `pinned` column.
pub const MIGRATION_V1_TO_V2: &'static str = "
ALTER TABLE vobes ADD COLUMN pinned INTEGER NOT NULL DEFAULT 0;
CREATE INDEX IF NOT EXISTS idx_vobes_pinned ON vobes(pinned DESC, last_modified DESC);
";

/// Version 3: the `actor` column of activity; older rows read `human`.
pub const MIGRATION_V2_TO_V3: &'static str = "
ALTER TABLE activity ADD COLUMN actor TEXT NOT NULL DEFAULT 'human';
CREATE INDEX IF NOT EXISTS idx_activity_actor ON activity(actor, timestamp DESC);
";

/// Version 4: the `saved_filters` table.
pub const MIGRATION_V3_TO_V4: &'static str = "
CREATE TABLE IF NOT EXISTS saved_filters (
    id          TEXT PRIMARY KEY,
    label       TEXT NOT NULL,
    query       TEXT NOT NULL,
    created_at  TEXT NOT NULL
);
CREATE INDEX IF NOT EXISTS idx_saved_filters_created ON saved_filters(created_at DESC);
";

/// Reads the highest recorded schema version (0 when none).
pub const CURRENT_VERSION_SQL: &'static str = "SELECT COALESCE(MAX(version), 0) FROM schema_version";

/// Records the schema version reached.
pub const RECORD_VERSION_SQL: &'static str = "INSERT OR REPLACE INTO schema_version (version) VALUES (?1)";

/// Inserts a vobe row, or updates every column but `id` and `created_at`
/// of the row with the same id. Arguments, in order: id, name, path,
/// framework, language, package_manager, created_at, last_opened,
/// last_modified, tags, notes, metadata, git_branch, git_dirty,
/// git_ahead, git_behind, git_last_hash, git_last_msg, git_last_author,
/// git_last_date, refreshed_at, pinned.
pub const UPSERT_VOBE_SQL: &'static str = "INSERT INTO vobes (
    id, name, path, framework, language, package_manager,
    created_at, last_opened, last_modified, tags, notes, metadata,
    git_branch, git_dirty, git_ahead, git_behind,
    git_last_hash, git_last_msg, git_last_author, git_last_date,
    refreshed_at, pinned
) VALUES (
    ?1, ?2, ?3, ?4, ?5, ?6,
    ?7, ?8, ?9, ?10, ?11, ?12,
    ?13, ?14, ?15, ?16,
    ?17, ?18, ?19, ?20,
    ?21, ?22
)
ON CONFLICT(id) DO UPDATE SET
    name=excluded.name, path=excluded.path, framework=excluded.framework,
    language=excluded.language, package_manager=excluded.package_manager,
    last_opened=excluded.last_opened, last_modified=excluded.last_modified,
    tags=excluded.tags, notes=excluded.notes, metadata=excluded.metadata,
    git_branch=excluded.git_branch, git_dirty=excluded.git_dirty,
    git_ahead=excluded.git_ahead, git_behind=excluded.git_behind,
    git_last_hash=excluded.git_last_hash, git_last_msg=excluded.git_last_msg,
    git_last_author=excluded.git_last_author, git_last_date=excluded.git_last_date,
    refreshed_at=excluded.refreshed_at, pinned=excluded.pinned";

/// Deletes a vobe (its activity goes with it).
pub const DELETE_VOBE_SQL: &'static str = "DELETE FROM vobes WHERE id = ?1";

/// Every saved filter (id, label, query, created_at), newest first.
pub const LIST_SAVED_FILTERS_SQL: &'static str = "SELECT id, label, query, created_at FROM saved_filters ORDER BY created_at DESC";

/// Inserts a saved filter, or replaces the one with the same id:
/// id, label, query, created_at.
pub const UPSERT_SAVED_FILTER_SQL: &'static str = "INSERT INTO saved_filters (id, label, query, created_at) VALUES (?1, ?2, ?3, ?4)
ON CONFLICT(id) DO UPDATE SET label=excluded.label, query=excluded.query, created_at=excluded.created_at";

/// Deletes a saved filter by id.
pub const DELETE_SAVED_FILTER_SQL: &'static str = "DELETE FROM saved_filters WHERE id = ?1";

/// Deletes every activity event.
pub const PURGE_ACTIVITY_SQL: &'static str = "DELETE FROM activity";

/// Deletes every vobe.
pub const PURGE_VOBES_SQL: &'static str = "DELETE FROM vobes";

/// Records an activity event: vobe id, kind, timestamp, detail.
pub const INSERT_ACTIVITY_SQL: &'static str = "INSERT INTO activity (vobe_id, kind, timestamp, detail) VALUES (?1, ?2, ?3, ?4)";

/// The most recent events, newest first, up to a limit.
pub const RECENT_ACTIVITY_SQL: &'static str = "SELECT id, vobe_id, kind, timestamp, detail FROM activity
     ORDER BY timestamp DESC, id DESC LIMIT ?1";

/// The most recent events of one vobe, newest first, up to a limit.
pub const VOBE_ACTIVITY_SQL: &'static str = "SELECT id, vobe_id, kind, timestamp, detail FROM activity
     WHERE vobe_id = ?1
     ORDER BY timestamp DESC, id DESC LIMIT ?2";

/// The scripts that bring a database from the recorded version to the
/// current one: the initial schema (every statement of which is
/// idempotent), then each migration past the recorded version, in order.
pub open spec fn spec_migration_scripts(current: u32) -> Seq<&'static str> {
    seq![SCHEMA_V1] + (if current < 2 {
        seq![MIGRATION_V1_TO_V2]
    } else {
        Seq::empty()
    }) + (if current < 3 {
        seq![MIGRATION_V2_TO_V3]
    } else {
        Seq::empty()
    }) + (if current < 4 {
        seq![MIGRATION_V3_TO_V4]
    } else {
        Seq::empty()
    })
}

/// The scripts to run on a database whose recorded version is `current`.
pub fn migration_scripts(current: u32) -> (r: Vec<&'static str>)
    ensures
        r@ == spec_migration_scripts(current),
{
    let mut r: Vec<&'static str> = Vec::new();
    r.push(SCHEMA_V1);
    let ghost a = r@;
    if current < 2 {
        r.push(MIGRATION_V1_TO_V2);
    }
    let ghost b = r@;
    if current < 3 {
        r.push(MIGRATION_V2_TO_V3);
    }
    let ghost c = r@;
    if current < 4 {
        r.push(MIGRATION_V3_TO_V4);
    }
    assert(r@ =~= spec_migration_scripts(current));
    r
}

/// A database at the current version runs no migration: only the
/// idempotent initial schema.
pub proof fn law_current_version_needs_no_migration(current: u32)
    requires
        current >= SCHEMA_VERSION,
    ensures
        spec_migration_scripts(current) == seq![SCHEMA_V1],
{
    assert(spec_migration_scripts(current) =~= seq![SCHEMA_V1]);
}

/// A fresh database runs every migration, in version order.
pub proof fn law_fresh_database_runs_all()
    ensures
        spec_migration_scripts(0) == seq![
            SCHEMA_V1,
            MIGRATION_V1_TO_V2,
            MIGRATION_V2_TO_V3,
            MIGRATION_V3_TO_V4,
        ],
{
    assert(spec_migration_scripts(0) =~= seq![
        SCHEMA_V1,
        MIGRATION_V1_TO_V2,
        MIGRATION_V2_TO_V3,
        MIGRATION_V3_TO_V4,
    ]);
}

} // verus!
