use vobes::gitstate::{author_label, branch_label, commit_instant, git_info_from, has_changes, CommitFacts, HeadFacts};
use vobes::model::time::Timestamp;

#[test]
fn branch_labels() {
    let on_main = Some(HeadFacts { is_branch: true, shorthand: Some("main".into()), commit_sha: None });
    assert_eq!(branch_label(&on_main), "main");
    let detached = Some(HeadFacts { is_branch: false, shorthand: None, commit_sha: Some("0123456789abcdef".into()) });
    assert_eq!(branch_label(&detached), "(detached 0123456)");
    assert_eq!(branch_label(&None), "(detached)");
}

#[test]
fn dirty_when_any_status_bit_is_set() {
    assert!(!has_changes(&[0, 0]));
    assert!(has_changes(&[0, 128]));
    assert!(!has_changes(&[]));
}

#[test]
fn authors_and_times() {
    assert_eq!(author_label(&Some("Vobes Test".into()), &Some("t@v".into())), "Vobes Test <t@v>");
    assert_eq!(author_label(&Some("Vobes Test".into()), &Some(String::new())), "Vobes Test");
    assert_eq!(author_label(&None, &None), "");
    assert_eq!(commit_instant(2), Timestamp { nanos: 2_000_000_000 });
    assert_eq!(commit_instant(i64::MAX), Timestamp { nanos: 0 });
}

#[test]
fn git_info_assembled() {
    let head = Some(HeadFacts { is_branch: true, shorthand: Some("dev".into()), commit_sha: None });
    let last = Some(CommitFacts {
        sha: "abc".into(),
        summary: Some("commit a.txt".into()),
        author_name: Some("Vobes Test".into()),
        author_email: Some("test@vobes.local".into()),
        seconds: 10,
    });
    let g = git_info_from(&head, &Some(vec![0, 0]), Some((2, 1)), &last);
    assert_eq!(g.branch, "dev");
    assert!(!g.dirty);
    assert_eq!((g.ahead, g.behind), (2, 1));
    let c = g.last_commit.unwrap();
    assert_eq!(c.message, "commit a.txt");
    assert!(c.author.contains("Vobes Test"));
    let g2 = git_info_from(&None, &None, None, &None);
    assert!(!g2.dirty);
    assert_eq!((g2.ahead, g2.behind), (0, 0));
    assert!(g2.last_commit.is_none());
}
