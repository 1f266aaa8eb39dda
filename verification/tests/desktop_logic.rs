use vobes::desktop::todos::{add_file_hits, MAX_TODO_HITS};
use vobes::desktop::apps::{default_linux_terminal, list_editors, list_terminals};
use vobes::desktop::commands::{
    clean_notes, clean_tags, context_directory, is_snapshot_file, pinned_names, readme_head,
    same_tags, saved_filter_created_at, storage_unavailable,
};
use vobes::desktop::dto::{ActivityDto, PathsDto, SavedFilter, SavedFilterDto, VobeDto};
use vobes::desktop::platform::{
    editor_shim, launch_dir, launch_result, open_editor, open_terminal_with, parent, reveal_path,
    LaunchOutcome, Platform,
};
use vobes::desktop::todos::{extension, file_hits, relative_to, text_lines, todo_entry, todo_kind, TodoEntry};
use vobes::model::activity::{ActivityEvent, ActivityKind};
use vobes::model::error::{Error, VobeId};
use vobes::model::time::Timestamp;
use vobes::model::vobe::Vobe;

fn strs(v: &[&str]) -> Vec<String> {
    v.iter().map(|s| s.to_string()).collect()
}

#[test]
fn activity_kind_label_is_human_readable() {
    for (kind, label) in [
        (ActivityKind::Opened, "opened"),
        (ActivityKind::Scanned, "scanned"),
        (ActivityKind::Created, "created"),
        (ActivityKind::Tagged, "tagged"),
    ] {
        let ev = ActivityEvent::now(VobeId::from_string("x"), kind);
        let dto = ActivityDto::from_event(&ev);
        assert_eq!(dto.kind, label);
    }
}

#[test]
fn vobe_dto_carries_every_field() {
    let mut v = Vobe::new("demo", "/tmp/demo");
    v.created_at = Timestamp { nanos: 0 };
    v.add_tag("t");
    v.pinned = true;
    let d = VobeDto::from_vobe(&v);
    assert_eq!(d.name, "demo");
    assert_eq!(d.created_at, "1970-01-01T00:00:00+00:00");
    assert_eq!(d.tags, vec!["t".to_string()]);
    assert!(d.pinned);
    assert!(d.git.is_none());
    assert!(d.last_opened.is_none());
}

#[test]
fn paths_below_the_config_dir() {
    let p = PathsDto::in_config_dir(Some("/c".into()), "vobes");
    assert_eq!(p.config, "/c/vobes/config.toml");
    assert_eq!(p.db, "/c/vobes/vobes.db");
    assert_eq!(p.snapshots, "/c/vobes/snapshots");
    assert_eq!(p.state_dir, "/c/vobes");
    let none = PathsDto::in_config_dir(None, "vobes");
    assert_eq!(none.config, "");
}

#[test]
fn saved_filters() {
    let now = Timestamp { nanos: 3 };
    assert_eq!(saved_filter_created_at(&None, now), now);
    assert_eq!(saved_filter_created_at(&Some("bad".into()), now), now);
    assert_eq!(
        saved_filter_created_at(&Some("1970-01-01T00:00:01+00:00".into()), now),
        Timestamp { nanos: 1_000_000_000 }
    );
    let f = SavedFilter { id: "f".into(), label: "F".into(), query: "is:pinned".into(), created_at: now };
    let d = SavedFilterDto::from_filter(&f);
    assert_eq!(d.query, "is:pinned");
    assert_eq!(d.created_at, "1970-01-01T00:00:00.000000003+00:00");
}

#[test]
fn tag_and_note_edits() {
    let cleaned = clean_tags(&strs(&["  work ", "", "   ", "x"]));
    assert_eq!(cleaned, strs(&["work", "x"]));
    assert!(same_tags(&cleaned, &strs(&["work", "x"])));
    assert!(!same_tags(&cleaned, &strs(&["x", "work"])));
    assert!(!same_tags(&cleaned, &strs(&["work"])));
    assert_eq!(clean_notes(Some(String::new())), None);
    assert_eq!(clean_notes(Some("n".into())), Some("n".to_string()));
    assert_eq!(clean_notes(None), None);
}

#[test]
fn pinned_vobe_names() {
    let mut a = Vobe::new("a", "/a");
    a.pinned = true;
    let b = Vobe::new("b", "/b");
    let mut c = Vobe::new("c", "/c");
    c.pinned = true;
    assert_eq!(pinned_names(&[a, b, c]), strs(&["a", "c"]));
}

#[test]
fn lines_like_str_lines() {
    for text in ["", "a", "a\n", "a\r\nb", "a\n\nb\n", "\n", "x\r", "a\nb\r\n\r\n"] {
        let expected: Vec<String> = text.lines().map(|l| l.to_string()).collect();
        assert_eq!(text_lines(text), expected, "{text:?}");
    }
}

#[test]
fn readme_excerpt_keeps_120_lines() {
    let text: String = (0..200).map(|i| format!("line {i}\n")).collect();
    let head = readme_head(&text);
    assert_eq!(head.lines().count(), 120);
    assert!(head.starts_with("line 0\nline 1"));
    assert!(head.ends_with("line 119"));
    assert_eq!(readme_head("# t\r\nbody\n"), "# t\nbody");
}

#[test]
fn todo_comments_are_found() {
    assert_eq!(todo_kind("// todo: x"), Some("TODO"));
    assert_eq!(todo_kind("fixme and todo"), Some("FIXME"));
    assert_eq!(todo_kind("xxx"), Some("XXX"));
    assert_eq!(todo_kind("nothing"), None);
    let hits = file_hits("a\n  // TODO: one  \nb\n# FIXME two\n", "src/x.rs", 100);
    assert_eq!(hits.len(), 2);
    assert_eq!(hits[0].line, 2);
    assert_eq!(hits[0].text, "// TODO: one");
    assert_eq!(hits[1].kind, "FIXME");
    assert_eq!(hits[1].file, "src/x.rs");
    assert_eq!(file_hits("TODO\nTODO\nTODO\n", "f", 2).len(), 2);
}

#[test]
fn todo_walk_decisions() {
    assert_eq!(todo_entry(".git", true, false), TodoEntry::Skip);
    assert_eq!(todo_entry("node_modules", true, false), TodoEntry::Skip);
    assert_eq!(todo_entry("src", true, false), TodoEntry::Descend);
    assert_eq!(todo_entry("main.rs", false, true), TodoEntry::Read);
    assert_eq!(todo_entry(".env.md", false, true), TodoEntry::Read);
    assert_eq!(todo_entry("image.png", false, true), TodoEntry::Skip);
    assert_eq!(todo_entry("Makefile", false, true), TodoEntry::Skip);
    assert_eq!(extension("a.tar.gz").as_deref(), Some("gz"));
    assert_eq!(extension(".bashrc"), None);
    assert_eq!(extension("foo.").as_deref(), Some(""));
    assert_eq!(relative_to("/p", "/p/src/a.rs"), "src/a.rs");
    assert_eq!(relative_to("/p", "/pq/a.rs"), "/pq/a.rs");
    assert_eq!(relative_to("/p", "/p"), "");
}

#[test]
fn context_directory_is_capped() {
    let entries: Vec<String> = (0..60).map(|i| format!("/p/e{i}")).collect();
    let dir = context_directory("/p", &entries);
    assert_eq!(dir.len(), 50);
    assert_eq!(dir[0], "e0");
    assert_eq!(dir[49], "e49");
}

#[test]
fn snapshots_are_json_files() {
    assert!(is_snapshot_file("vobes-2026.json"));
    assert!(!is_snapshot_file("notes.txt"));
    assert!(!is_snapshot_file(".json"));
}

#[test]
fn broken_store_error() {
    assert_eq!(
        storage_unavailable().message(),
        "storage error: storage unavailable — database failed to initialize"
    );
}

#[test]
fn reveal_commands() {
    let c = reveal_path(Platform::MacOs, "/tmp/f.txt", true, true, false).unwrap();
    assert_eq!((c.program.as_str(), c.args.clone()), ("open", strs(&["-R", "/tmp/f.txt"])));
    let c = reveal_path(Platform::Linux, "/tmp/f.txt", true, true, false).unwrap();
    assert_eq!((c.program.as_str(), c.args.clone()), ("xdg-open", strs(&["/tmp"])));
    let c = reveal_path(Platform::Windows, "C:/x/f.txt", true, true, false).unwrap();
    assert_eq!(c.args, strs(&["/select,C:/x/f.txt"]));
    assert_eq!(
        reveal_path(Platform::Linux, "/nope", false, false, false),
        Err(Error::Internal("reveal: path does not exist: /nope".into()))
    );
}

#[test]
fn parents_and_launch_dirs() {
    assert_eq!(parent("/a/b").as_deref(), Some("/a"));
    assert_eq!(parent("/a").as_deref(), Some("/"));
    assert_eq!(parent("a").as_deref(), Some(""));
    assert_eq!(parent("/"), None);
    assert_eq!(launch_dir("/a/b.rs", false), "/a");
    assert_eq!(launch_dir("/a/b", true), "/a/b");
}

#[test]
fn terminal_commands() {
    let c = open_terminal_with(Platform::Linux, "/p", true, None, "gnome-terminal").unwrap();
    assert_eq!(c.program, "gnome-terminal");
    assert_eq!(c.args, strs(&["--working-directory=/p"]));
    assert_eq!(c.current_dir.as_deref(), Some("/p"));
    let c = open_terminal_with(Platform::Linux, "/p", true, Some(""), "xterm").unwrap();
    assert_eq!(c.program, "xterm");
    assert!(c.args.is_empty());
    let c = open_terminal_with(Platform::MacOs, "/p", true, Some("iTerm"), "").unwrap();
    assert_eq!(c.args, strs(&["-a", "iTerm", "/p"]));
    let c = open_terminal_with(Platform::Windows, "C:/p", true, None, "").unwrap();
    assert_eq!(c.args, strs(&["/C", "start", "cmd", "/K", "cd /D \"C:/p\""]));
    assert!(open_terminal_with(Platform::Linux, "/gone", false, None, "xterm").is_err());
}

#[test]
fn unknown_terminals_fall_back_to_the_default() {
    let c = open_terminal_with(Platform::Linux, "/p", true, Some("no-such-term"), "konsole").unwrap();
    assert_eq!(c.program, "konsole");
    let c = open_terminal_with(Platform::Linux, "/p", true, Some("kitty"), "konsole").unwrap();
    assert_eq!(c.program, "kitty");
    let c = open_terminal_with(Platform::MacOs, "/p", true, Some("no-such-term"), "").unwrap();
    assert_eq!(c.args, strs(&["-a", "Terminal", "/p"]));
    let c = open_terminal_with(Platform::Windows, "C:/p", true, Some("wt"), "").unwrap();
    assert_eq!(c.args[2], "wt");
    let c = open_terminal_with(Platform::Windows, "C:/p", true, Some("bash"), "").unwrap();
    assert_eq!(c.args[2], "cmd");
}

#[test]
fn editor_commands() {
    assert_eq!(editor_shim("Zed"), Some("zed"));
    assert_eq!(editor_shim("TextEdit"), None);
    let c = open_editor(Platform::MacOs, "/p", true, None, true, "").unwrap();
    assert_eq!((c.program.as_str(), c.args.clone()), ("code", strs(&["/p"])));
    let c = open_editor(Platform::MacOs, "/p", true, Some("TextEdit"), false, "").unwrap();
    assert_eq!((c.program.as_str(), c.args.clone()), ("open", strs(&["-a", "TextEdit", "/p"])));
    let c = open_editor(Platform::Windows, "/p", true, None, false, "").unwrap();
    assert_eq!(c.program, "code");
    let c = open_editor(Platform::Linux, "/p", true, None, false, "vim").unwrap();
    assert_eq!(c.program, "vim");
}

#[test]
fn launch_results() {
    assert_eq!(launch_result("editor", LaunchOutcome::Exited(true, "0".into())), Ok(()));
    assert_eq!(
        launch_result("editor", LaunchOutcome::Exited(false, "exit status: 1".into())),
        Err(Error::Internal("editor exited with status exit status: 1".into()))
    );
    assert_eq!(
        launch_result("terminal", LaunchOutcome::SpawnFailed("no such file".into())),
        Err(Error::Internal("terminal: no such file".into()))
    );
}

#[test]
fn terminal_menus() {
    let mut mac = vec![false; 10];
    mac[1] = true;
    let t = list_terminals(Platform::MacOs, &mac, "");
    assert_eq!(t.len(), 2);
    assert_eq!((t[0].id.as_str(), t[0].is_default), ("Terminal", true));
    assert_eq!((t[1].id.as_str(), t[1].is_default), ("iTerm", false));
    let mut linux = vec![false; 9];
    linux[2] = true;
    linux[8] = true;
    assert_eq!(default_linux_terminal(&[false, false, true, false]), "konsole");
    assert_eq!(default_linux_terminal(&[false, false, false, false]), "xterm");
    let t = list_terminals(Platform::Linux, &linux, "konsole");
    assert_eq!(t.iter().map(|x| (x.id.as_str(), x.is_default)).collect::<Vec<_>>(), vec![("konsole", true), ("xterm", false)]);
    let w = list_terminals(Platform::Windows, &[], "");
    assert_eq!(w.len(), 4);
    assert!(w[3].is_default && w[3].id == "cmd");
}

#[test]
fn editor_menus() {
    let mut linux = vec![false; 10];
    linux[0] = true;
    linux[5] = true;
    let e = list_editors(Platform::Linux, &linux, Some("hx".into()));
    assert_eq!(e.len(), 3);
    assert_eq!((e[0].id.as_str(), e[0].label.as_str(), e[0].is_default), ("$EDITOR:hx", "$EDITOR (hx)", true));
    assert_eq!((e[1].label.as_str(), e[1].is_default), ("Visual Studio Code", false));
    let mut mac = vec![false; 8];
    mac[0] = true;
    let m = list_editors(Platform::MacOs, &mac, None);
    assert_eq!((m[0].id.as_str(), m[0].is_default), ("Visual Studio Code", true));
    let w = list_editors(Platform::Windows, &[false; 5], None);
    assert_eq!((w[0].id.as_str(), w[0].is_default), ("notepad", true));
}

use vobes::desktop::dto::SnapshotInfoDto;
use vobes::desktop::snapshots::{sort_newest_first, text_less};

fn snap(name: &str, modified: &str) -> SnapshotInfoDto {
    SnapshotInfoDto { path: format!("/s/{name}"), name: name.to_string(), size_bytes: 1, modified_at: modified.to_string() }
}

#[test]
fn snapshots_newest_first() {
    let v = vec![
        snap("a", "2026-01-01T00:00:00+00:00"),
        snap("b", "2026-03-01T00:00:00+00:00"),
        snap("c", ""),
        snap("d", "2026-02-01T00:00:00+00:00"),
    ];
    let sorted = sort_newest_first(v);
    let names: Vec<&str> = sorted.iter().map(|s| s.name.as_str()).collect();
    assert_eq!(names, vec!["b", "d", "a", "c"]);
}

#[test]
fn text_order_matches_string_order() {
    for (a, b) in [("a", "b"), ("ab", "a"), ("", "x"), ("é", "z"), ("same", "same")] {
        assert_eq!(text_less(a, b), a < b, "{a} {b}");
    }
}

#[test]
fn snapshots_of_equal_time_keep_their_order() {
    let t = "2026-01-01T00:00:00+00:00";
    let v = vec![snap("x", t), snap("new", "2026-05-01T00:00:00+00:00"), snap("y", t), snap("z", t)];
    let sorted = sort_newest_first(v);
    let names: Vec<&str> = sorted.iter().map(|s| s.name.as_str()).collect();
    assert_eq!(names, vec!["new", "x", "y", "z"]);
}

#[test]
fn editor_var_entry_runs_its_command() {
    for p in [Platform::Linux, Platform::MacOs, Platform::Windows] {
        let c = open_editor(p, "/p", true, Some("$EDITOR:vim"), true, "code").unwrap();
        assert_eq!(c.program, "vim");
        assert_eq!(c.args, strs(&["/p"]));
    }
    let c = open_editor(Platform::Linux, "/p", true, Some("nvim"), false, "code").unwrap();
    assert_eq!(c.program, "nvim");
}

#[test]
fn unknown_editors_fall_back_to_the_default() {
    let c = open_editor(Platform::Linux, "/p", true, Some("no-such-editor"), false, "code").unwrap();
    assert_eq!(c.program, "code");
    let c = open_editor(Platform::MacOs, "/p", true, Some("No Such App"), false, "").unwrap();
    assert_eq!(c.args, strs(&["-a", "Visual Studio Code", "/p"]));
    let c = open_editor(Platform::Windows, "/p", true, Some("emacs"), false, "").unwrap();
    assert_eq!(c.program, "code");
    let c = open_editor(Platform::Windows, "/p", true, Some("zed"), false, "").unwrap();
    assert_eq!(c.program, "zed");
}

#[test]
fn adding_hits_stops_at_the_maximum() {
    let mut out = Vec::new();
    let text: String = (0..60).map(|i| format!("// TODO {i}\n")).collect();
    assert!(!add_file_hits(&mut out, &text, "a.rs"));
    assert_eq!(out.len(), 60);
    assert!(add_file_hits(&mut out, &text, "b.rs"));
    assert_eq!(out.len(), MAX_TODO_HITS);
    assert_eq!(out[60].file, "b.rs");
    assert_eq!(out[60].line, 1);
}
