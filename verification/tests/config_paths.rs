use vobes::config::{
    app_dir_name, expand_home, expand_home_with, join_path, state_dir_in, Config, ConfigError,
    DesktopConfig, DisplayConfig, ScanConfig,
};

#[test]
fn empty_config_uses_defaults() {
    let c = Config::default();
    assert_eq!(c.scan.max_depth, 4);
    assert!(!c.scan.follow_symlinks);
    assert_eq!(c.scan.roots, vec!["~/dev".to_string()]);
    assert!(c.scan.exclude.is_empty());
    assert_eq!(c.display.theme, "auto");
    assert!(!c.desktop.notify_behind);
    assert_eq!(ScanConfig::default(), c.scan);
    assert_eq!(DisplayConfig::default(), c.display);
    assert_eq!(DesktopConfig::default(), c.desktop);
}

#[test]
fn expand_home_handles_corner_cases() {
    assert_eq!(expand_home("/abs").unwrap(), "/abs");
    let home = expand_home("~").unwrap();
    assert!(!home.contains('~'));
    let sub = expand_home("~/dev").unwrap();
    assert!(sub.ends_with("dev"));
    assert!(!sub.contains('~'));
}

#[test]
fn expand_home_against_a_given_home() {
    let h = Some("/home/u".to_string());
    assert_eq!(expand_home_with("~", h.clone()).unwrap(), "/home/u/");
    assert_eq!(expand_home_with("~/dev", h.clone()).unwrap(), "/home/u/dev");
    assert_eq!(expand_home_with("~//dev", h.clone()).unwrap(), "/home/u/dev");
    assert_eq!(expand_home_with("~user/x", h.clone()).unwrap(), "~user/x");
    assert_eq!(expand_home_with("rel/x", h).unwrap(), "rel/x");
    assert_eq!(expand_home_with("~/dev", None), None);
    assert_eq!(expand_home_with("/abs", None).unwrap(), "/abs");
}

#[test]
fn resolved_roots_expands_home() {
    let mut c = Config::default();
    c.scan.roots = vec!["~/dev".to_string(), "/abs/path".to_string()];
    let roots = c.resolved_roots();
    assert_eq!(roots.len(), 2);
    assert!(!roots[0].contains('~'));
    assert_eq!(roots[1], "/abs/path");
    let fixed = c.resolved_roots_with(Some("/h".to_string()));
    assert_eq!(fixed, vec!["/h/dev".to_string(), "/abs/path".to_string()]);
    let unexpanded = c.resolved_roots_with(None);
    assert_eq!(unexpanded, vec!["~/dev".to_string(), "/abs/path".to_string()]);
}

#[test]
fn every_configured_root_is_kept() {
    let mut c = Config::default();
    c.scan.roots = vec!["dev".to_string(), "~".to_string(), "~user/x".to_string()];
    let fixed = c.resolved_roots_with(Some("/h".to_string()));
    assert_eq!(fixed, vec!["dev".to_string(), "/h/".to_string(), "~user/x".to_string()]);
    let none = c.resolved_roots_with(None);
    assert_eq!(none, c.scan.roots);
    assert_eq!(c.resolved_roots().len(), 3);
}

#[test]
fn joins_like_path_join() {
    assert_eq!(join_path("/a", "b"), "/a/b");
    assert_eq!(join_path("/a/", "b"), "/a/b");
    assert_eq!(join_path("/a", "/b"), "/b");
    assert_eq!(join_path("", "b"), "b");
    assert_eq!(join_path("/a", ""), "/a/");
}

#[test]
fn app_dir_name_matches_profile() {
    assert_eq!(app_dir_name(None, true), "vobes-dev");
    assert_eq!(app_dir_name(None, false), "vobes");
}

#[test]
fn env_override_takes_precedence() {
    assert_eq!(app_dir_name(Some("vobes-test-override".to_string()), true), "vobes-test-override");
    assert_eq!(app_dir_name(Some(String::new()), false), "vobes");
}

#[test]
fn state_dir_ends_with_app_name() {
    let d = state_dir_in(Some("/home/u/.config".to_string()), "vobes").unwrap();
    assert_eq!(d, "/home/u/.config/vobes");
    assert!(state_dir_in(None, "vobes").is_none());
}

#[test]
fn config_error_messages() {
    assert_eq!(
        ConfigError::Read("/c.toml".into(), "denied".into()).message(),
        "cannot read config /c.toml: denied"
    );
    assert_eq!(
        ConfigError::Parse("/c.toml".into(), "bad".into()).message(),
        "cannot parse config /c.toml: bad"
    );
    assert_eq!(ConfigError::Write("full".into()).message(), "cannot write config: full");
}
