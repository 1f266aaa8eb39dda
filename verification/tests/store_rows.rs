use vobes::model::activity::{ActivityEvent, ActivityKind};
use vobes::model::error::VobeId;
use vobes::model::git::{Commit, GitInfo};
use vobes::model::time::Timestamp;
use vobes::model::vobe::Vobe;
use vobes::store::query::{list_query, lookup_query, sql_limit, Filter, Sort, VobeKey};
use vobes::store::rows::{
    activity_from_row, activity_to_insert, kind_from_str, kind_to_str, vobe_from_row, vobe_to_row,
    ActivityRow,
};
use vobes::store::schema::{
    migration_scripts, MIGRATION_V1_TO_V2, MIGRATION_V2_TO_V3, MIGRATION_V3_TO_V4, SCHEMA_V1,
    SCHEMA_VERSION,
};
use vobes::store::snapshot::ExportSnapshot;

const ALL_KINDS: [ActivityKind; 8] = [
    ActivityKind::Opened,
    ActivityKind::Modified,
    ActivityKind::Committed,
    ActivityKind::Scanned,
    ActivityKind::Created,
    ActivityKind::Closed,
    ActivityKind::Tagged,
    ActivityKind::Noted,
];

#[test]
fn filter_defaults_match_everything() {
    let f = Filter::all();
    assert!(f.tag.is_none());
    assert!(!f.only_dirty);
    assert!(!f.exclude_archived);
    assert!(f.modified_since.is_none());
}

#[test]
fn filter_builders_compose() {
    let f = Filter::all()
        .with_tag("work")
        .only_dirty()
        .exclude_archived()
        .modified_since(Timestamp::now());
    assert_eq!(f.tag.as_deref(), Some("work"));
    assert!(f.only_dirty);
    assert!(f.exclude_archived);
    assert!(f.modified_since.is_some());
}

#[test]
fn sort_default_is_last_modified() {
    let s = Sort::default();
    assert!(matches!(s, Sort::LastModified));
}

#[test]
fn snapshot_includes_version_and_current() {
    let vobes = vec![Vobe::new("demo", "/tmp/demo")];
    let id = vobes[0].id.clone();
    let activity = vec![ActivityEvent::now(id, ActivityKind::Created)];
    let snap = ExportSnapshot::new(vobes, activity);
    assert_eq!(snap.version, ExportSnapshot::CURRENT_VERSION);
    assert_eq!(snap.vobes.len(), 1);
    assert_eq!(snap.activity.len(), 1);
}

#[test]
fn list_query_for_everything() {
    let q = list_query(&Filter::all(), Sort::Name);
    assert_eq!(q.sql, "SELECT * FROM vobes WHERE 1=1 ORDER BY pinned DESC, name ASC");
    assert!(q.args.is_empty());
}

#[test]
fn list_query_numbers_its_arguments() {
    let since = Timestamp { nanos: 0 };
    let q = list_query(&Filter::all().modified_since(since), Sort::LastModified);
    assert_eq!(
        q.sql,
        "SELECT * FROM vobes WHERE 1=1 AND last_modified IS NOT NULL AND last_modified >= ?1 ORDER BY pinned DESC, last_modified DESC NULLS LAST"
    );
    assert_eq!(q.args, vec!["1970-01-01T00:00:00+00:00".to_string()]);
    let q2 = list_query(&Filter::all().with_tag("work").modified_since(since).only_dirty().exclude_archived(), Sort::CreatedAt);
    assert_eq!(
        q2.sql,
        "SELECT * FROM vobes WHERE 1=1 AND EXISTS (SELECT 1 FROM json_each(vobes.tags) WHERE json_each.value = ?1) AND last_modified IS NOT NULL AND last_modified >= ?2 AND git_dirty = 1 AND NOT EXISTS (SELECT 1 FROM json_each(vobes.tags) WHERE json_each.value = 'archived') ORDER BY pinned DESC, created_at DESC"
    );
    assert_eq!(q2.args, vec!["work".to_string(), "1970-01-01T00:00:00+00:00".to_string()]);
    assert_eq!(list_query(&Filter::all(), Sort::LastOpened).sql, "SELECT * FROM vobes WHERE 1=1 ORDER BY pinned DESC, last_opened DESC NULLS LAST");
}

#[test]
fn lookups_normalize_paths() {
    let q = lookup_query(&VobeKey::Path("/a/b/../c/".to_string()));
    assert_eq!(q.sql, "SELECT * FROM vobes WHERE path = ?1");
    assert_eq!(q.args, vec!["/a/c".to_string()]);
    let q = lookup_query(&VobeKey::Name("demo".to_string()));
    assert_eq!(q.sql, "SELECT * FROM vobes WHERE name = ?1");
    let q = lookup_query(&VobeKey::Id(VobeId::from_string("vobe_1")));
    assert_eq!(q.args, vec!["vobe_1".to_string()]);
}

#[test]
fn huge_limits_mean_no_limit() {
    assert_eq!(sql_limit(10), 10);
    assert_eq!(sql_limit(usize::MAX), -1);
}

#[test]
fn migrations_follow_the_recorded_version() {
    assert_eq!(
        migration_scripts(0),
        vec![SCHEMA_V1, MIGRATION_V1_TO_V2, MIGRATION_V2_TO_V3, MIGRATION_V3_TO_V4]
    );
    assert_eq!(migration_scripts(2), vec![SCHEMA_V1, MIGRATION_V2_TO_V3, MIGRATION_V3_TO_V4]);
    assert_eq!(migration_scripts(SCHEMA_VERSION), vec![SCHEMA_V1]);
}

#[test]
fn kind_names_round_trip() {
    for k in ALL_KINDS {
        assert_eq!(kind_from_str(kind_to_str(k)), k);
    }
    assert_eq!(kind_to_str(ActivityKind::Opened), "Opened");
    assert_eq!(kind_from_str("bogus"), ActivityKind::Scanned);
}

fn sample_vobe() -> Vobe {
    let mut v = Vobe::new("demo", "/tmp/demo/../demo2/")
        .with_language("Rust")
        .with_framework("Axum")
        .with_notes("notes");
    v.add_tag("work");
    v.add_tag("has \"quotes\"");
    v.touch_opened_at(Timestamp { nanos: 1_000_000_123 });
    v.touch_modified_at(Timestamp { nanos: -5_000_000_000 });
    v.pinned = true;
    v.with_git(GitInfo {
        branch: "main".into(),
        dirty: true,
        ahead: 3,
        behind: u32::MAX,
        last_commit: Some(Commit {
            hash: "abc".into(),
            message: "msg".into(),
            author: "me".into(),
            date: Timestamp { nanos: 42 },
        }),
    })
}

#[test]
fn vobe_rows_round_trip() {
    let v = sample_vobe();
    let row = vobe_to_row(&v);
    assert_eq!(row.path, "/tmp/demo2");
    assert_eq!(row.git_dirty, 1);
    assert_eq!(row.pinned, 1);
    assert_eq!(row.tags, r#"["work","has \"quotes\""]"#);
    let back = vobe_from_row(&row, Timestamp { nanos: 999 });
    let mut expected = v.clone();
    expected.path = "/tmp/demo2".to_string();
    assert_eq!(back, expected);
}

#[test]
fn unreadable_columns_fall_back() {
    let mut row = vobe_to_row(&Vobe::new("x", "/x"));
    row.created_at = "garbage".to_string();
    row.tags = "not json".to_string();
    row.git_branch = Some("dev".to_string());
    row.git_ahead = -4;
    row.git_behind = 5;
    row.git_last_hash = Some("h".to_string());
    row.git_last_msg = Some("m".to_string());
    row.git_last_author = Some("a".to_string());
    row.git_last_date = Some("bad".to_string());
    let now = Timestamp { nanos: 77 };
    let v = vobe_from_row(&row, now);
    assert_eq!(v.created_at, now);
    assert!(v.tags.is_empty());
    let g = v.git.unwrap();
    assert_eq!(g.ahead, 0);
    assert_eq!(g.behind, 5);
    assert_eq!(g.last_commit.unwrap().date, now);
    row.git_last_author = None;
    assert!(vobe_from_row(&row, now).git.unwrap().last_commit.is_none());
}

#[test]
fn activity_rows_round_trip() {
    let e = ActivityEvent::at(VobeId::from_string("vobe_a"), ActivityKind::Tagged, Timestamp { nanos: 5 })
        .with_detail("d");
    let ins = activity_to_insert(&e);
    assert_eq!(ins.kind, "Tagged");
    let row = ActivityRow {
        id: 9,
        vobe_id: ins.vobe_id.clone(),
        kind: ins.kind.to_string(),
        timestamp: ins.timestamp.clone(),
        detail: ins.detail.clone(),
    };
    let back = activity_from_row(&row, Timestamp { nanos: 0 });
    assert_eq!(back, e.with_id(9));
}
