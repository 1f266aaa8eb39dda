use vobes::scan::detection::Detection;
use vobes::scan::exclude::{is_code_subdir, is_excluded, BUILTIN_EXCLUDES};
use vobes::scan::framework::{FrameworkDetector, ManifestFacts};
use vobes::scan::language::{language_for_ext, LanguageDetector};
use vobes::scan::package::PackageManagerDetector;
use vobes::scan::repo::RepoDetector;
use vobes::scan::report::{
    assemble_report, is_candidate_dir, merge_findings, Candidate, DefaultScanner, DetectorKind,
};

fn no_manifests() -> ManifestFacts {
    ManifestFacts {
        package_json: None,
        cargo_toml: None,
        pyproject_toml: None,
        go_mod: None,
        mix_exs_exists: false,
        mix_exs: None,
        pubspec_yaml: None,
        has_xcodeproj: false,
        package_swift_exists: false,
    }
}

fn framework_of(facts: &ManifestFacts) -> Option<String> {
    FrameworkDetector::new().detect(facts).and_then(|d| d.framework)
}

fn package_json(text: &str) -> Option<String> {
    framework_of(&ManifestFacts { package_json: Some(text.to_string()), ..no_manifests() })
}

fn cargo(text: &str) -> Option<String> {
    framework_of(&ManifestFacts { cargo_toml: Some(text.to_string()), ..no_manifests() })
}

fn pyproject(text: &str) -> Option<String> {
    framework_of(&ManifestFacts { pyproject_toml: Some(text.to_string()), ..no_manifests() })
}

fn gomod(text: &str) -> Option<String> {
    framework_of(&ManifestFacts { go_mod: Some(text.to_string()), ..no_manifests() })
}

fn names(v: &[&str]) -> Vec<String> {
    v.iter().map(|s| s.to_string()).collect()
}

fn exts(v: &[&str]) -> Vec<Option<String>> {
    v.iter().map(|s| if s.is_empty() { None } else { Some(s.to_string()) }).collect()
}

#[test]
fn builtin_excludes_block_known_junk() {
    assert!(is_excluded("node_modules", &[]));
    assert!(is_excluded(".git", &[]));
    assert!(is_excluded("target", &[]));
    assert!(is_excluded(".venv", &[]));
}

#[test]
fn user_excludes_extend_builtin() {
    let extras = vec!["scratch".to_string(), "tmp".to_string()];
    assert!(is_excluded("scratch", &extras));
    assert!(is_excluded("tmp", &extras));
    assert!(is_excluded("dist", &extras));
}

#[test]
fn normal_dirs_are_not_excluded() {
    assert!(!is_excluded("my-app", &[]));
    assert!(!is_excluded("src", &[]));
    assert!(!is_excluded("src-tauri", &[]));
}

#[test]
fn code_subdirs_excluded_as_candidates() {
    assert!(is_code_subdir("src"));
    assert!(is_code_subdir("src-tauri"));
    assert!(is_code_subdir("lib"));
    assert!(is_code_subdir("app"));
    assert!(!is_code_subdir("components"));
    assert!(!is_code_subdir("node_modules"));
}

#[test]
fn detection_empty_and_is_empty() {
    let d = Detection::empty();
    assert!(d.is_empty());
    assert!(!BUILTIN_EXCLUDES.is_empty());
}

#[test]
fn detection_merge_combines_fields() {
    let mut a = Detection {
        is_repo: true,
        framework: None,
        language: Some("Rust".into()),
        package_manager: None,
    };
    let b = Detection {
        is_repo: false,
        framework: Some("Tauri".into()),
        language: Some("TypeScript".into()),
        package_manager: Some("cargo".into()),
    };
    a.merge(b);
    assert!(a.is_repo);
    assert_eq!(a.framework.as_deref(), Some("Tauri"));
    assert_eq!(a.language.as_deref(), Some("Rust"));
    assert_eq!(a.package_manager.as_deref(), Some("cargo"));
}

#[test]
fn merge_with_empty_changes_nothing() {
    let d = Detection {
        is_repo: false,
        framework: Some("Axum".into()),
        language: None,
        package_manager: Some("cargo".into()),
    };
    let mut left = d.clone();
    left.merge(Detection::empty());
    assert_eq!(left, d);
    let mut right = Detection::empty();
    right.merge(d.clone());
    assert_eq!(right, d);
}

#[test]
fn js_nextjs_over_react() {
    assert_eq!(
        package_json(r#"{"dependencies":{"next":"14","react":"18","react-dom":"18"}}"#).as_deref(),
        Some("Next.js")
    );
}

#[test]
fn js_remix_over_react() {
    assert_eq!(
        package_json(r#"{"dependencies":{"@remix-run/react":"2","react":"18"}}"#).as_deref(),
        Some("Remix")
    );
}

#[test]
fn js_sveltekit_over_svelte() {
    assert_eq!(
        package_json(r#"{"dependencies":{"@sveltejs/kit":"2","svelte":"4"}}"#).as_deref(),
        Some("SvelteKit")
    );
}

#[test]
fn js_nuxt() {
    assert_eq!(package_json(r#"{"dependencies":{"nuxt":"3"}}"#).as_deref(), Some("Nuxt"));
}

#[test]
fn js_hono() {
    assert_eq!(package_json(r#"{"dependencies":{"hono":"4"}}"#).as_deref(), Some("Hono"));
}

#[test]
fn js_express() {
    assert_eq!(package_json(r#"{"dependencies":{"express":"4"}}"#).as_deref(), Some("Express"));
}

#[test]
fn js_react() {
    assert_eq!(
        package_json(r#"{"dependencies":{"react":"18","react-dom":"18"}}"#).as_deref(),
        Some("React")
    );
}

#[test]
fn js_dev_dependencies_count_too() {
    assert_eq!(package_json(r#"{"devDependencies":{"vite":"5"}}"#).as_deref(), Some("Vite"));
}

#[test]
fn js_without_framework_falls_through_to_other_manifests() {
    let facts = ManifestFacts {
        package_json: Some(r#"{"dependencies":{"lodash":"4"}}"#.to_string()),
        cargo_toml: Some("[dependencies]\naxum = \"0.7\"\n".to_string()),
        ..no_manifests()
    };
    assert_eq!(framework_of(&facts).as_deref(), Some("Axum"));
    let broken = ManifestFacts { package_json: Some("{not json".to_string()), ..no_manifests() };
    assert_eq!(framework_of(&broken), None);
}

#[test]
fn rust_axum() {
    assert_eq!(cargo("[package]\nname=\"x\"\n[dependencies]\naxum=\"0.7\"\n").as_deref(), Some("Axum"));
}

#[test]
fn rust_actix() {
    assert_eq!(
        cargo("[package]\nname=\"x\"\n[dependencies]\nactix-web=\"4\"\n").as_deref(),
        Some("Actix Web")
    );
}

#[test]
fn rust_tauri() {
    assert_eq!(cargo("[package]\nname=\"x\"\n[dependencies]\ntauri=\"2\"\n").as_deref(), Some("Tauri"));
}

#[test]
fn rust_no_framework_falls_back() {
    assert_eq!(
        cargo("[package]\nname=\"x\"\n[dependencies]\nserde=\"1\"\n").as_deref(),
        Some("Rust (no framework)")
    );
}

#[test]
fn python_fastapi() {
    assert_eq!(
        pyproject("[project]\nname=\"x\"\ndependencies=[\"fastapi\"]\n").as_deref(),
        Some("FastAPI")
    );
}

#[test]
fn python_django() {
    assert_eq!(
        pyproject("[project]\nname=\"x\"\ndependencies=[\"django\"]\n").as_deref(),
        Some("Django")
    );
}

#[test]
fn python_plain() {
    assert_eq!(pyproject("[project]\nname=\"x\"\n").as_deref(), Some("Python"));
}

#[test]
fn go_gin() {
    assert_eq!(gomod("module x\nrequire github.com/gin-gonic/gin v1.9\n").as_deref(), Some("Gin"));
}

#[test]
fn go_plain() {
    assert_eq!(gomod("module x\n").as_deref(), Some("Go (no framework)"));
}

#[test]
fn other_ecosystems() {
    let mix = ManifestFacts { mix_exs_exists: true, mix_exs: Some("{:phoenix, \"~> 1.7\"}".into()), ..no_manifests() };
    assert_eq!(framework_of(&mix).as_deref(), Some("Phoenix"));
    let unreadable_mix = ManifestFacts { mix_exs_exists: true, ..no_manifests() };
    assert_eq!(framework_of(&unreadable_mix).as_deref(), Some("Elixir (Mix)"));
    let flutter = ManifestFacts { pubspec_yaml: Some("dependencies:\n  flutter:\n".into()), ..no_manifests() };
    assert_eq!(framework_of(&flutter).as_deref(), Some("Flutter"));
    let xcode = ManifestFacts { has_xcodeproj: true, ..no_manifests() };
    assert_eq!(framework_of(&xcode).as_deref(), Some("Xcode"));
    let swift = ManifestFacts { package_swift_exists: true, ..no_manifests() };
    assert_eq!(framework_of(&swift).as_deref(), Some("SwiftPM"));
    assert_eq!(framework_of(&no_manifests()), None);
}

#[test]
fn pm_pnpm_wins_over_npm() {
    let d = PackageManagerDetector::new().detect(&names(&["pnpm-lock.yaml", "package-lock.json"]));
    assert_eq!(d.and_then(|d| d.package_manager).as_deref(), Some("pnpm"));
}

#[test]
fn pm_uv_detected() {
    let d = PackageManagerDetector::new().detect(&names(&["uv.lock"]));
    assert_eq!(d.and_then(|d| d.package_manager).as_deref(), Some("uv"));
}

#[test]
fn pm_none_without_lockfile() {
    assert!(PackageManagerDetector::new().detect(&names(&["README.md"])).is_none());
}

#[test]
fn repo_worktree_via_dotgit_file() {
    let d = RepoDetector::new().detect(true).unwrap();
    assert!(d.is_repo);
    assert!(RepoDetector::new().detect(false).is_none());
}

#[test]
fn language_table_lookups() {
    assert_eq!(language_for_ext("rs"), Some("Rust"));
    assert_eq!(language_for_ext("tsx"), Some("TypeScript"));
    assert_eq!(language_for_ext("nope"), None);
}

#[test]
fn nextjs_prefers_typescript_over_css() {
    // A Next.js app: many .css files but the source is TypeScript/TSX.
    let mut census = vec!["json", "json", "tsx", "tsx"];
    // More CSS than TSX on purpose.
    for _ in 0..10 {
        census.push("css");
    }
    census.push("css");
    let manifests = ManifestFacts {
        package_json: Some(r#"{"dependencies":{"next":"14","react":"18"}}"#.into()),
        ..no_manifests()
    };
    let root = facts(false, &census, &["package.json", "tsconfig.json", "pages", "styles", "global.css"], manifests);
    let all = vec![
        dir("/f/nextjs", "nextjs", root),
        dir("/f/nextjs/pages", "pages", facts(false, &["tsx", "tsx"], &["index.tsx", "about.tsx"], no_manifests())),
        dir("/f/nextjs/styles", "styles", facts(false, &["css"; 10], &["0.module.css"], no_manifests())),
    ];
    let scanner = DefaultScanner::with_standard_detectors().with_max_depth(4);
    let (walked, skipped) = walk(&scanner, all);
    let report = scanner.scan_walked("/f/nextjs".into(), &walked, walked.len(), skipped);
    assert_eq!(report.count(), 1);
    let (_, detection) = &report.vobes[0];
    // Source language must beat styling/markup even when outnumbered.
    assert_eq!(detection.language.as_deref(), Some("TypeScript"));
}

#[test]
fn markup_wins_only_without_source() {
    let lang = LanguageDetector::new().primary_language(&exts(&["css", "css", "html", ""]));
    assert_eq!(lang, Some("CSS"));
    assert_eq!(LanguageDetector::new().primary_language(&exts(&["", "zzz"])), None);
}

fn finding(d: Option<Detection>) -> Option<Detection> {
    d
}

#[test]
fn detects_rust_project_with_cargo_and_framework() {
    let facts = ManifestFacts {
        cargo_toml: Some("name = \"demo\"\nversion = \"0.1\"\n[dependencies]\ntauri = \"1\"\n".into()),
        ..no_manifests()
    };
    let root = Candidate {
        path: "/tmp/rust".to_string(),
        findings: vec![
            finding(RepoDetector::new().detect(false)),
            finding(LanguageDetector::new().detect(&exts(&["toml", "lock", "rs"]))),
            finding(PackageManagerDetector::new().detect(&names(&["Cargo.toml", "Cargo.lock", "src"]))),
            finding(FrameworkDetector::new().detect(&facts)),
        ],
    };
    assert!(!is_candidate_dir("src"));
    let report = assemble_report("/tmp/rust".to_string(), vec![root], 2, 0);
    assert_eq!(report.count(), 1);
    let (_, detection) = &report.vobes[0];
    assert_eq!(detection.package_manager.as_deref(), Some("cargo"));
    assert_eq!(detection.framework.as_deref(), Some("Tauri"));
    assert_eq!(detection.language.as_deref(), Some("Rust"));
    assert!(!detection.is_repo);
}

#[test]
fn empty_dir_produces_no_vobes() {
    let root = Candidate {
        path: "/tmp/empty".to_string(),
        findings: vec![
            RepoDetector::new().detect(false),
            LanguageDetector::new().detect(&[]),
            PackageManagerDetector::new().detect(&[]),
            FrameworkDetector::new().detect(&no_manifests()),
        ],
    };
    let report = assemble_report("/tmp/empty".to_string(), vec![root], 1, 0);
    assert_eq!(report.count(), 0);
    assert!(report.is_empty());
}

#[test]
fn language_alone_is_not_a_project() {
    let only_lang = vec![None, LanguageDetector::new().detect(&exts(&["py"])), None, None];
    assert!(merge_findings(&only_lang).is_some());
    let report = assemble_report(
        "/r".to_string(),
        vec![Candidate { path: "/r/x".to_string(), findings: only_lang }],
        1,
        0,
    );
    assert!(report.is_empty());
    assert!(merge_findings(&[None, None]).is_none());
}

#[test]
fn scanner_settings() {
    let s = DefaultScanner::with_standard_detectors()
        .with_extra_excludes(vec!["scratch".to_string()])
        .with_max_depth(2)
        .with_follow_symlinks(true);
    assert_eq!(s.detectors.len(), 4);
    assert!(matches!(s.detectors[0], DetectorKind::Repo(_)));
    assert_eq!(s.max_depth, 2);
    assert!(s.follow_symlinks);
    assert!(!s.descends_into("scratch"));
    assert!(!s.descends_into("node_modules"));
    assert!(s.descends_into("src"));
}

use vobes::scan::walk::{DirFacts, Detector, Scanner, WalkedDir};

fn facts(git: bool, ex: &[&str], files: &[&str], manifests: ManifestFacts) -> DirFacts {
    DirFacts { has_git_entry: git, exts: exts(ex), file_names: names(files), manifests }
}

fn dir(path: &str, name: &str, f: DirFacts) -> WalkedDir {
    WalkedDir { path: path.to_string(), name: name.to_string(), facts: f }
}

#[test]
fn detectors_share_one_interface() {
    let f = facts(true, &["rs"], &["Cargo.lock"], ManifestFacts { cargo_toml: Some("axum".into()), ..no_manifests() });
    let all: Vec<DetectorKind> = DefaultScanner::with_standard_detectors().detectors;
    let names: Vec<&str> = all.iter().map(|d| d.name()).collect();
    assert_eq!(names, vec!["repo", "language", "package_manager", "framework"]);
    let found: Vec<Option<Detection>> = all.iter().map(|d| d.detect_in(&f)).collect();
    assert!(found.iter().all(|d| d.is_some()));
    let merged = DefaultScanner::with_standard_detectors().detect_dir(&f).unwrap();
    assert_eq!(
        merged,
        Detection {
            is_repo: true,
            framework: Some("Axum".into()),
            language: Some("Rust".into()),
            package_manager: Some("cargo".into()),
        }
    );
}

#[test]
fn detects_node_project_with_pnpm() {
    let root = facts(
        false,
        &["json", "tsx", "ts"],
        &["pnpm-lock.yaml", "package.json", "src"],
        ManifestFacts { package_json: Some(r#"{"dependencies":{"next":"14"}}"#.into()), ..no_manifests() },
    );
    let walked = vec![dir("/w/node", "node", root), dir("/w/node/src", "src", facts(false, &["ts"], &[], no_manifests()))];
    let report = DefaultScanner::with_standard_detectors().scan_walked("/w/node".into(), &walked, 2, 0);
    assert_eq!(report.count(), 1);
    let (path, detection) = &report.vobes[0];
    assert_eq!(path, "/w/node");
    assert_eq!(detection.package_manager.as_deref(), Some("pnpm"));
    assert_eq!(detection.framework.as_deref(), Some("Next.js"));
    assert_eq!(detection.language.as_deref(), Some("TypeScript"));
}

#[test]
fn scan_via_trait_object() {
    let walked = vec![
        dir("/w", "w", facts(false, &[], &["a", "b"], no_manifests())),
        dir("/w/go", "go", facts(false, &["go"], &["go.mod", "go.sum", "main.go"], ManifestFacts { go_mod: Some("module demo\n\ngo 1.21\n".into()), ..no_manifests() })),
    ];
    let scanner = DefaultScanner::with_standard_detectors();
    let vobes = Scanner::scan(&scanner, "/w", &walked);
    assert_eq!(vobes.len(), 1);
    let (_, d) = &vobes[0];
    assert_eq!(d.package_manager.as_deref(), Some("go"));
    assert_eq!(d.language.as_deref(), Some("Go"));
}

#[test]
fn detects_git_repo_via_dotgit_dir() {
    let walked = vec![dir("/r", "r", facts(true, &["md", "py"], &[".git", "README.md", "main.py"], no_manifests()))];
    let report = DefaultScanner::with_standard_detectors().scan_walked("/r".into(), &walked, 1, 0);
    assert_eq!(report.count(), 1);
    assert!(report.vobes[0].1.is_repo);
    assert_eq!(report.vobes[0].1.language.as_deref(), Some("Python"));
}

#[test]
fn source_subdir_with_manifest_is_not_reported() {
    let cargo_facts = || facts(true, &["rs"], &["Cargo.lock"], ManifestFacts { cargo_toml: Some("axum".into()), ..no_manifests() });
    let walked = vec![dir("/p", "p", cargo_facts()), dir("/p/src", "src", cargo_facts())];
    let report = DefaultScanner::with_standard_detectors().scan_walked("/p".into(), &walked, 2, 0);
    assert_eq!(report.count(), 1);
    assert_eq!(report.vobes[0].0, "/p");
}

/// The walk below a root as the program performs it: directories the
/// scanner does not descend into are skipped (with what lies below them).
fn walk(scanner: &DefaultScanner, all: Vec<WalkedDir>) -> (Vec<WalkedDir>, usize) {
    let mut walked = Vec::new();
    let mut skipped: Vec<String> = Vec::new();
    for d in all {
        if skipped.iter().any(|s| d.path.starts_with(&format!("{s}/"))) {
            continue;
        }
        if scanner.descends_into(&d.name) {
            walked.push(d);
        } else {
            skipped.push(d.path.clone());
        }
    }
    let n = skipped.len();
    (walked, n)
}

#[test]
fn excludes_builtin_junk_dirs() {
    let cargo = || ManifestFacts { cargo_toml: Some("name = \"demo\"\n".into()), ..no_manifests() };
    let scanner = DefaultScanner::with_standard_detectors().with_max_depth(3);
    let all = vec![
        dir("/x", "x", facts(false, &["toml", "rs"], &["Cargo.toml", "src", "node_modules"], cargo())),
        dir("/x/src", "src", facts(false, &["rs"], &["lib.rs"], no_manifests())),
        dir("/x/node_modules", "node_modules", facts(false, &["js"], &["foo.js"], no_manifests())),
    ];
    let (walked, skipped) = walk(&scanner, all);
    let report = scanner.scan_walked("/x".into(), &walked, walked.len(), skipped);
    assert_eq!(report.count(), 1);
    assert!(report.dirs_skipped >= 1, "dirs_skipped = {}", report.dirs_skipped);
}

#[test]
fn respects_user_excludes() {
    let cargo = |name: &str| ManifestFacts { cargo_toml: Some(format!("name = \"{name}\"\n")), ..no_manifests() };
    let scanner = DefaultScanner::with_standard_detectors()
        .with_max_depth(3)
        .with_extra_excludes(vec!["scratch".to_string()]);
    let all = vec![
        dir("/d", "d", facts(false, &["toml", "rs"], &["Cargo.toml", "src", "scratch"], cargo("demo"))),
        dir("/d/scratch", "scratch", facts(false, &["toml", "rs"], &["Cargo.toml", "src"], cargo("scratch"))),
        dir("/d/scratch/src", "src", facts(false, &["rs"], &["lib.rs"], no_manifests())),
        dir("/d/src", "src", facts(false, &["rs"], &["lib.rs"], no_manifests())),
    ];
    let (walked, skipped) = walk(&scanner, all);
    let report = scanner.scan_walked("/d".into(), &walked, walked.len(), skipped);
    assert_eq!(report.count(), 1);
    assert_eq!(report.vobes[0].0, "/d");
}

#[test]
fn egg_info_directories_are_excluded() {
    assert!(is_excluded("mypkg.egg-info", &[]));
    assert!(is_excluded(".egg-info", &[]));
    assert!(!is_excluded("egg-info", &[]));
    assert!(!is_excluded("mypkg.egg-info.bak", &[]));
    assert!(!is_excluded("tmp-1", &["tmp*".to_string()]));
    assert!(is_excluded("tmp*", &["tmp*".to_string()]));
    assert!(!DefaultScanner::with_standard_detectors().descends_into("demo.egg-info"));
}
