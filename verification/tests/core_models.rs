use vobes::model::activity::{actor_label, default_actor, ActivityEvent, ActivityKind};
use vobes::model::error::{Error, ParseIdError, VobeId};
use vobes::model::git::{Commit, GitInfo};
use vobes::model::time::Timestamp;
use vobes::model::vobe::{Vobe, ARCHIVED_TAG};
use vobes::path::{normalize, normalize_str};

#[test]
fn unix_absolute_stays() {
    assert_eq!(normalize_str("/usr/local/bin"), "/usr/local/bin");
}

#[test]
fn collapses_double_separators() {
    assert_eq!(normalize_str("/usr//local"), "/usr/local");
}

#[test]
fn strips_trailing_slash() {
    assert_eq!(normalize_str("/usr/local/"), "/usr/local");
}

#[test]
fn keeps_root() {
    assert_eq!(normalize_str("/"), "/");
}

#[test]
fn resolves_dot_segments() {
    assert_eq!(normalize_str("/usr/./local"), "/usr/local");
}

#[test]
fn resolves_dotdot() {
    assert_eq!(normalize_str("/usr/local/../bin"), "/usr/bin");
}

#[test]
fn backslashes_normalized_to_forward() {
    assert_eq!(normalize_str("/usr\\local\\bin"), "/usr/local/bin");
}

#[test]
fn windows_drive_preserved() {
    assert_eq!(normalize_str("C:\\dev\\foo"), "C:/dev/foo");
    assert_eq!(normalize_str("C:/dev/foo"), "C:/dev/foo");
}

#[test]
fn windows_drive_dotdot() {
    assert_eq!(normalize_str("C:/dev/foo/../bar"), "C:/dev/bar");
}

#[test]
fn relative_path_stays_relative() {
    assert_eq!(normalize_str("dev/foo"), "dev/foo");
}

#[test]
fn relative_dotdot_kept() {
    assert_eq!(normalize_str("../foo"), "../foo");
    assert_eq!(normalize_str("../foo/.."), "..");
}

#[test]
fn empty_becomes_dot() {
    assert_eq!(normalize_str(""), ".");
}

#[test]
fn normalize_is_idempotent_on_examples() {
    for p in ["/a/./b/../c/", "C:\\x\\..\\y", "../../a/b/..", "", "/"] {
        let once = normalize(p);
        assert_eq!(normalize(&once), once);
    }
}

#[test]
fn normalize_ignores_separator_style() {
    assert_eq!(normalize("a\\b\\c"), normalize("a/b/c"));
}

#[test]
fn dotdot_above_root_stays_at_root() {
    assert_eq!(normalize("/../x"), "/x");
}

#[test]
fn vobe_id_new_has_prefix() {
    let a = VobeId::new();
    assert!(a.as_str().starts_with("vobe_"));
    assert!(!a.as_str().is_empty());
}

#[test]
fn vobe_id_from_clock_is_hex_nanos() {
    let id = VobeId::from_clock(Timestamp { nanos: 255 });
    assert_eq!(id.as_str(), "vobe_ff");
    let zero = VobeId::from_clock(Timestamp { nanos: -5 });
    assert_eq!(zero.as_str(), "vobe_0");
}

#[test]
fn vobe_id_display_as_inner_string() {
    let id = VobeId::from_string("vobe_123");
    assert_eq!(id.to_string(), "vobe_123");
}

#[test]
fn vobe_id_from_str_rejects_empty() {
    let r: Result<VobeId, _> = "".parse();
    assert!(r.is_err());
    assert_eq!(r, Err(ParseIdError::Empty));
}

#[test]
fn vobe_id_from_str_accepts_nonempty() {
    let id: VobeId = "vobe_xyz".parse().unwrap();
    assert_eq!(id.as_str(), "vobe_xyz");
}

#[test]
fn vobe_new_has_defaults() {
    let v = Vobe::new("demo", "/tmp/demo");
    assert_eq!(v.name, "demo");
    assert_eq!(v.path, "/tmp/demo");
    assert!(v.git.is_none());
    assert!(v.framework.is_none());
    assert!(v.language.is_none());
    assert!(v.package_manager.is_none());
    assert!(v.last_opened.is_none());
    assert!(v.last_modified.is_none());
    assert!(v.notes.is_none());
    assert!(v.tags.is_empty());
    assert!(!v.pinned);
    assert!(!v.is_dirty());
    assert!(!v.has_unpushed());
    assert!(!v.has_unpulled());
    assert!(!v.is_archived());
}

#[test]
fn vobe_builder_chains() {
    let v = Vobe::new("demo", "/tmp/demo")
        .with_language("Rust")
        .with_framework("Tauri")
        .with_package_manager("cargo")
        .with_notes("hello");
    assert_eq!(v.language.as_deref(), Some("Rust"));
    assert_eq!(v.framework.as_deref(), Some("Tauri"));
    assert_eq!(v.package_manager.as_deref(), Some("cargo"));
    assert_eq!(v.notes.as_deref(), Some("hello"));
}

#[test]
fn vobe_tags_add_remove_query() {
    let mut v = Vobe::new("demo", "/tmp/demo");
    assert!(v.add_tag("work"));
    assert!(!v.add_tag("work"));
    assert!(v.has_tag("work"));
    assert!(v.add_tag("archived"));
    assert!(v.is_archived());
    assert!(v.remove_tag("archived"));
    assert!(!v.is_archived());
    assert!(!v.remove_tag("nope"));
}

#[test]
fn add_then_remove_tag_restores_tags() {
    let mut v = Vobe::new("demo", "/tmp/demo");
    v.add_tag("a");
    v.add_tag("b");
    let before = v.tags.clone();
    assert!(v.add_tag(ARCHIVED_TAG));
    assert!(v.remove_tag(ARCHIVED_TAG));
    assert_eq!(v.tags, before);
    assert!(!v.has_tag(ARCHIVED_TAG));
}

#[test]
fn vobe_touch_at_sets_timestamps() {
    let mut v = Vobe::new("demo", "/tmp/demo");
    v.touch_opened_at(Timestamp { nanos: 10 });
    v.touch_modified_at(Timestamp { nanos: 20 });
    assert_eq!(v.last_opened, Some(Timestamp { nanos: 10 }));
    assert_eq!(v.last_modified, Some(Timestamp { nanos: 20 }));
    v.touch_opened();
    assert!(v.last_opened.is_some());
}

#[test]
fn git_info_helpers() {
    let dirty = GitInfo { branch: "main".into(), dirty: true, ahead: 0, behind: 0, last_commit: None };
    assert!(dirty.is_dirty());
    assert!(!dirty.is_clean());
    assert!(!dirty.needs_push());
    assert!(!dirty.needs_pull());

    let push_pull =
        GitInfo { branch: "main".into(), dirty: false, ahead: 2, behind: 1, last_commit: None };
    assert!(push_pull.needs_push());
    assert!(push_pull.needs_pull());
    assert!(!push_pull.is_clean());

    let clean = GitInfo::clean("main");
    assert!(clean.is_clean());
    assert_eq!(clean.branch, "main");
}

#[test]
fn commit_short_hash_and_message() {
    let c = Commit {
        hash: "abcdef1234567890".into(),
        message: "fix: handle null pointer in parser".into(),
        author: "Yizhou Jiang".into(),
        date: Timestamp::now(),
    };
    assert_eq!(c.short_hash(), "abcdef1");
    let short_msg = c.short_message(10);
    assert!(short_msg.ends_with('…'));
    assert_eq!(short_msg.chars().count(), 11);
    assert_eq!(short_msg, "fix: handl…");
    let fits = c.short_message(100);
    assert_eq!(fits, c.message);
}

#[test]
fn activity_kind_labels() {
    assert_eq!(ActivityKind::Opened.label(), "opened");
    assert_eq!(ActivityKind::Modified.to_string(), "modified");
    assert_eq!(ActivityKind::Committed.to_string(), "committed");
    assert_eq!(ActivityKind::Created.label(), "created");
}

#[test]
fn activity_event_builder() {
    let id = VobeId::from_string("vobe_x");
    let ev = ActivityEvent::now(id.clone(), ActivityKind::Opened).with_detail("via vbs");
    assert_eq!(ev.vobe_id, id);
    assert_eq!(ev.kind, ActivityKind::Opened);
    assert_eq!(ev.detail.as_deref(), Some("via vbs"));
    assert!(ev.id.is_none());
    assert_eq!(ev.actor, "human");

    let with_id = ev.with_id(42);
    assert_eq!(with_id.id, Some(42));
    let by_agent = with_id.with_actor("agent".to_string());
    assert_eq!(by_agent.actor, "agent");
}

#[test]
fn actor_label_defaults_to_human() {
    assert_eq!(default_actor(), "human");
    assert_eq!(actor_label(None), "human");
    assert_eq!(actor_label(Some(String::new())), "human");
    assert_eq!(actor_label(Some("agent".to_string())), "agent");
}

#[test]
fn error_messages_name_their_kind() {
    assert_eq!(Error::not_found("x".to_string()).message(), "vobe not found: x");
    assert_eq!(Error::storage("boom".to_string()).message(), "storage error: boom");
    assert_eq!(Error::internal("i".to_string()).message(), "internal error: i");
    assert_eq!(Error::config("c".to_string()).message(), "config error: c");
    assert_eq!(Error::git("g".to_string()).message(), "git error: g");
    assert_eq!(Error::scan("s".to_string()).message(), "scan error: s");
    assert_eq!(Error::InvalidId(ParseIdError::Empty).message(), "invalid id: vobe id cannot be empty");
}

#[test]
fn rfc3339_round_trips_through_chrono() {
    let t = Timestamp { nanos: 1_700_000_000_123_456_789 };
    let s = t.to_rfc3339();
    assert_eq!(s, "2023-11-14T22:13:20.123456789+00:00");
    assert_eq!(Timestamp::parse_rfc3339(&s), Some(t));
    assert_eq!(Timestamp::parse_rfc3339("not a date"), None);
    assert_eq!(Timestamp::parse_rfc3339_or("nope", Timestamp { nanos: 7 }), Timestamp { nanos: 7 });
}

#[test]
fn events_carry_the_configured_actor() {
    let id = VobeId::from_string("v");
    assert_eq!(ActivityEvent::now_env(id.clone(), ActivityKind::Created, Some("agent".into())).actor, "agent");
    assert_eq!(ActivityEvent::now_env(id, ActivityKind::Created, None).actor, "human");
}

#[test]
fn trailing_separator_and_dot_segment_change_nothing() {
    for p in ["a/b", "/usr/local", "C:/x", "..", "c:", "x\\y"] {
        assert_eq!(normalize_str(&format!("{p}/")), normalize_str(p), "{p}");
        assert_eq!(normalize_str(&format!("{p}/.")), normalize_str(p), "{p}");
    }
}

#[test]
fn vobe_id_new_nonempty_and_unique() {
    let a = VobeId::new();
    let b = VobeId::new();
    // Uniqueness relies on the clock advancing: wait until it has.
    let mut c = VobeId::new();
    while c == a {
        c = VobeId::new();
    }
    assert!(a.as_str().starts_with("vobe_"));
    assert!(!a.as_str().is_empty());
    assert_ne!(a, c);
    let _ = b;
}

#[test]
fn vobe_touch_helpers_set_timestamps() {
    let mut v = Vobe::new("demo", "/tmp/demo");
    let before = Timestamp::now();
    v.touch_opened();
    v.touch_modified();
    assert!(v.last_opened.unwrap().nanos >= before.nanos);
    assert!(v.last_modified.unwrap().nanos >= before.nanos);
}

#[test]
fn doubled_separators_change_nothing() {
    for p in ["/usr/local/bin", "a/b/../c", "C:/x/y", "rel", "/", "x\\y/z", ""] {
        assert_eq!(normalize_str(&p.replace('/', "//")), normalize_str(p), "{p}");
    }
}

#[test]
fn normalizing_again_changes_nothing() {
    for p in ["C:", "C:foo", "c:\\a\\..\\b", "/a/./b/", "../x/..", "a//b"] {
        let once = normalize_str(p);
        assert_eq!(normalize_str(&once), once, "{p}");
    }
    // A stray drive-like segment is the one exception.
    assert_eq!(normalize_str("./c:x"), "c:x");
    assert_eq!(normalize_str("c:x"), "c:/x");
}

#[test]
fn whitespace_matches_std() {
    for n in 0..=0x10FFFFu32 {
        if let Some(c) = char::from_u32(n) {
            assert_eq!(vobes::text::is_whitespace(c), c.is_whitespace(), "{n:x}");
        }
    }
}

#[test]
fn clock_readings_give_instants() {
    assert_eq!(Timestamp::of_reading(true, 5).nanos, 5);
    assert_eq!(Timestamp::of_reading(false, 5).nanos, -5);
    assert_eq!(Timestamp::of_reading(true, u128::MAX).nanos, i64::MAX);
    assert_eq!(Timestamp::of_reading(false, u128::MAX).nanos, i64::MIN);
    assert_eq!(Timestamp::of_reading(false, 0).nanos, 0);
}
