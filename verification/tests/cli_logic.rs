use vobes::cli::commands::{
    absolute_normalized, carry_over, export_path, sync_step, file_name, reset_confirmed, vobe_from_detection,
    watch_start, watch_step,
};
use vobes::cli::output::{
    activity_table_row, relative_between, vobe_detail_lines, vobe_status, vobe_table_row,
};
use vobes::cli::update::{detect_manager, CARGO_CMD};
use vobes::model::activity::{ActivityEvent, ActivityKind};
use vobes::model::error::VobeId;
use vobes::model::git::{Commit, GitInfo};
use vobes::model::time::Timestamp;
use vobes::model::vobe::Vobe;
use vobes::scan::detection::Detection;

const SEC: i64 = 1_000_000_000;

#[test]
fn cargo_home_match() {
    assert_eq!(
        detect_manager("/x/cargo/bin/vbs", Some("/x/cargo"), None).unwrap(),
        ("cargo", CARGO_CMD)
    );
}

#[test]
fn home_cargo_match() {
    assert_eq!(detect_manager("/x/.cargo/bin/vbs", None, Some("/x")).unwrap(), ("cargo", CARGO_CMD));
}

#[test]
fn homebrew_match() {
    assert_eq!(detect_manager("/opt/homebrew/bin/vbs", None, None).unwrap().0, "Homebrew (macOS)");
}

#[test]
fn unmanaged_returns_none() {
    assert!(detect_manager("/x/.local/bin/vbs", None, Some("/x")).is_none());
}

#[test]
fn snap_and_linuxbrew() {
    assert_eq!(detect_manager("/snap/bin/vbs", None, None).unwrap().1, "sudo snap refresh vobes-cli");
    assert_eq!(
        detect_manager("/home/linuxbrew/.linuxbrew/bin/vbs", None, None).unwrap().0,
        "Homebrew (Linux)"
    );
}

#[test]
fn relative_times() {
    let now = Timestamp { nanos: 1_000_000 * SEC };
    let ago = |secs: i64| relative_between(now, Timestamp { nanos: now.nanos - secs * SEC });
    assert_eq!(ago(59), "just now");
    assert_eq!(ago(-100), "just now");
    assert_eq!(ago(60), "1m ago");
    assert_eq!(ago(3599), "59m ago");
    assert_eq!(ago(3600), "1h ago");
    assert_eq!(ago(86_399), "23h ago");
    assert_eq!(ago(86_400), "1d ago");
    assert_eq!(ago(30 * 86_400), "1mo ago");
    assert_eq!(ago(360 * 86_400), "1y ago");
    assert_eq!(
        relative_between(Timestamp { nanos: i64::MAX }, Timestamp { nanos: i64::MIN }),
        "593y ago"
    );
}

fn vobe_with_git(dirty: bool, ahead: u32, behind: u32) -> Vobe {
    Vobe::new("demo", "/tmp/demo").with_git(GitInfo {
        branch: "main".into(),
        dirty,
        ahead,
        behind,
        last_commit: None,
    })
}

#[test]
fn status_words() {
    assert_eq!(vobe_status(&Vobe::new("a", "/a")), "clean");
    assert_eq!(vobe_status(&vobe_with_git(false, 0, 0)), "clean");
    assert_eq!(vobe_status(&vobe_with_git(true, 2, 1)), "dirty ↑2 ↓1");
    let mut v = vobe_with_git(false, 0, 3);
    v.add_tag("archived");
    assert_eq!(vobe_status(&v), "↓3 archived");
}

#[test]
fn table_rows() {
    let now = Timestamp { nanos: 100 * SEC };
    let mut v = vobe_with_git(true, 0, 0).with_language("Rust");
    v.last_modified = Some(Timestamp { nanos: 30 * SEC });
    assert_eq!(
        vobe_table_row(&v, now),
        vec!["demo", "Rust", "-", "main", "dirty", "1m ago"]
    );
    let e = ActivityEvent::at(VobeId::from_string("vobe_z"), ActivityKind::Opened, now);
    assert_eq!(activity_table_row(&e, None, now), vec!["just now", "vobe_z", "opened", ""]);
    assert_eq!(
        activity_table_row(&e.with_detail("d"), Some("demo".into()), now),
        vec!["just now", "demo", "opened", "d"]
    );
}

#[test]
fn detail_view() {
    let now = Timestamp { nanos: 10_000 * SEC };
    let mut v = Vobe::new("demo", "/tmp/demo").with_language("Rust");
    v.id = VobeId::from_string("vobe_1");
    v.created_at = Timestamp { nanos: 10_000 * SEC - 7200 * SEC };
    v.add_tag("a");
    v.add_tag("b");
    let v = v.with_git(GitInfo {
        branch: "main".into(),
        dirty: false,
        ahead: 1,
        behind: 0,
        last_commit: Some(Commit {
            hash: "0123456789".into(),
            message: "hello".into(),
            author: "me".into(),
            date: now,
        }),
    });
    assert_eq!(
        vobe_detail_lines(&v, now),
        vec![
            "demo",
            "  path:   /tmp/demo",
            "  id:     vobe_1",
            "  lang:   Rust",
            "  tags:   a, b",
            "  created: 2h ago",
            "  git:",
            "    branch: main",
            "    dirty:  false",
            "    ahead/behind: ↑1 ↓0",
            "    last:   0123456 hello",
            "            me (just now)",
        ]
    );
}

#[test]
fn absolute_paths_and_names() {
    assert_eq!(absolute_normalized("proj/../app", "/home/u"), "/home/u/app");
    assert_eq!(absolute_normalized("/x/./y/", "/ignored"), "/x/y");
    assert_eq!(file_name("/home/u/app").as_deref(), Some("app"));
    assert_eq!(file_name("/"), None);
    assert_eq!(file_name(".."), None);
}

#[test]
fn found_vobes_take_the_detection() {
    let d = Detection {
        is_repo: true,
        framework: Some("Axum".into()),
        language: Some("Rust".into()),
        package_manager: Some("cargo".into()),
    };
    let now = Timestamp { nanos: 16 };
    let git = GitInfo::clean("main");
    let v = vobe_from_detection("app", "/home/u", &d, Some(git.clone()), now);
    assert_eq!(v.name, "app");
    assert_eq!(v.path, "/home/u/app");
    assert_eq!(v.id.as_str(), "vobe_10");
    assert_eq!(v.framework.as_deref(), Some("Axum"));
    assert_eq!(v.last_modified, Some(now));
    assert_eq!(v.git, Some(git.clone()));
    let not_repo = Detection { is_repo: false, ..d };
    assert!(vobe_from_detection("/", "/", &not_repo, Some(git), now).git.is_none());
    assert_eq!(vobe_from_detection("/", "/", &not_repo, None, now).name, "project");
}

#[test]
fn rescans_keep_identity() {
    let mut prev = Vobe::new("old", "/p");
    prev.add_tag("keep");
    prev.notes = Some("n".into());
    prev.pinned = true;
    prev.last_opened = Some(Timestamp { nanos: 3 });
    let fresh = Vobe::new("new", "/p").with_language("Go");
    let now = Timestamp { nanos: 99 };
    let merged = carry_over(fresh.clone(), prev.clone(), true, now);
    assert_eq!(merged.id, prev.id);
    assert_eq!(merged.tags, prev.tags);
    assert_eq!(merged.notes, prev.notes);
    assert!(merged.pinned);
    assert_eq!(merged.language.as_deref(), Some("Go"));
    assert_eq!(merged.name, "new");
    assert_eq!(merged.last_modified, Some(now));
    assert!(!carry_over(fresh, prev, false, now).pinned);
}

fn event_with_id(id: Option<u64>) -> ActivityEvent {
    let e = ActivityEvent::at(VobeId::from_string("v"), ActivityKind::Opened, Timestamp { nanos: 0 });
    match id {
        Some(i) => e.with_id(i),
        None => e,
    }
}

#[test]
fn watcher_prints_only_newer_events() {
    let newest_first = vec![event_with_id(Some(8)), event_with_id(Some(7)), event_with_id(None)];
    let (printed, last) = watch_step(5, &newest_first);
    assert_eq!(printed.len(), 1);
    assert_eq!(printed[0].id, Some(8));
    assert_eq!(last, 8);
    let (none, same) = watch_step(8, &newest_first);
    assert!(none.is_empty());
    assert_eq!(same, 8);
    assert_eq!(watch_start(&[event_with_id(None), event_with_id(Some(4))]), 4);
    assert_eq!(watch_start(&[]), 0);
}

#[test]
fn reset_needs_yes() {
    assert!(reset_confirmed("yes\n"));
    assert!(reset_confirmed("  yes "));
    assert!(!reset_confirmed("y"));
    assert!(!reset_confirmed("YES"));
}

#[test]
fn export_paths() {
    let now = Timestamp { nanos: 0 };
    assert_eq!(export_path(Some("/abs.json".into()), "/cwd", None, now), "/abs.json");
    assert_eq!(export_path(Some("out.json".into()), "/cwd", None, now), "/cwd/out.json");
    assert_eq!(
        export_path(None, "/cwd", Some("/snaps".into()), now),
        "/snaps/vobes-1970-01-01-000000.json"
    );
    assert_eq!(export_path(None, "/cwd", None, now), "./vobes-1970-01-01-000000.json");
}

#[test]
fn sync_step_adds_new_and_merges_tracked() {
    let now = Timestamp { nanos: 77 };
    let fresh = Vobe::new("p", "/p");
    let (v, is_new) = sync_step(fresh.clone(), None, false, now);
    assert!(is_new);
    assert_eq!(v, fresh);
    let mut prev = Vobe::new("old", "/p");
    prev.tags = vec!["work".to_string()];
    prev.pinned = true;
    let (v, is_new) = sync_step(fresh.clone(), Some(prev.clone()), true, now);
    assert!(!is_new);
    assert_eq!(v.id, prev.id);
    assert_eq!(v.tags, prev.tags);
    assert!(v.pinned);
    assert_eq!(v.last_modified, Some(now));
    assert_eq!(v.name, "p");
}
