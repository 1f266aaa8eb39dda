//! Framework detection from dependency manifests.

use vstd::prelude::*;

use crate::scan::detection::Detection;
use crate::text::{chars_contain, chars_of, occurs_in, spec_to_lowercase, str_eq, to_lowercase};

verus! {

/// JavaScript frameworks, most specific first.
pub const JS_FRAMEWORKS: [&'static str; 18] = [
    "Next.js",
    "Nuxt",
    "Remix",
    "SvelteKit",
    "Astro",
    "Vite",
    "Svelte",
    "Solid",
    "React",
    "Vue",
    "Angular",
    "Express",
    "Fastify",
    "NestJS",
    "Hono",
    "Gatsby",
    "Docusaurus",
    "Storybook",
];

/// Dependency names that signal each JavaScript framework (the index into
/// [`JS_FRAMEWORKS`]); entries of one framework are adjacent and in
/// framework order, so the first present entry names the first framework
/// signalled.
pub const JS_SIGNATURES: [(&'static str, usize); 20] = [
    ("next", 0),
    ("nuxt", 1),
    ("remix", 2),
    ("@remix-run/react", 2),
    ("@sveltejs/kit", 3),
    ("astro", 4),
    ("vite", 5),
    ("svelte", 6),
    ("solid-js", 7),
    ("react", 8),
    ("react-dom", 8),
    ("vue", 9),
    ("@angular/core", 10),
    ("express", 11),
    ("fastify", 12),
    ("@nestjs/core", 13),
    ("hono", 14),
    ("gatsby", 15),
    ("@docusaurus/core", 16),
    ("storybook", 17),
];

/// Markers looked for in a lowercased `Cargo.toml`, in priority order.
pub const CARGO_MARKERS: [(&'static str, &'static str); 12] = [
    ("axum", "Axum"),
    ("actix-web", "Actix Web"),
    ("rocket", "Rocket"),
    ("warp", "Warp"),
    ("poem", "Poem"),
    ("bevy", "Bevy"),
    ("tauri", "Tauri"),
    ("iced", "Iced"),
    ("egui", "egui"),
    ("eframe", "egui"),
    ("leptos", "Leptos"),
    ("dioxus", "Dioxus"),
];

/// Markers looked for in a lowercased `pyproject.toml`, in priority order.
pub const PYTHON_MARKERS: [(&'static str, &'static str); 6] = [
    ("fastapi", "FastAPI"),
    ("django", "Django"),
    ("flask", "Flask"),
    ("starlette", "Starlette"),
    ("litestar", "Litestar"),
    ("poetry", "Python (Poetry)"),
];

/// Markers looked for in a lowercased `go.mod`, in priority order.
pub const GO_MARKERS: [(&'static str, &'static str); 4] = [
    ("github.com/gin-gonic/gin", "Gin"),
    ("labstack/echo", "Echo"),
    ("gofiber/fiber", "Fiber"),
    ("go-chi/chi", "Chi"),
];

/// Markers looked for in a lowercased `mix.exs`.
pub const MIX_MARKERS: [(&'static str, &'static str); 1] = [("phoenix", "Phoenix")];

/// Markers looked for in a lowercased `pubspec.yaml`.
pub const PUBSPEC_MARKERS: [(&'static str, &'static str); 1] = [("flutter", "Flutter")];

/// The dependency tables of a `package.json`: the keys of its
/// `dependencies`, `devDependencies` and `peerDependencies` objects (none
/// when the field is missing or not an object).
#[derive(Clone, Debug, PartialEq, Eq)]
pub struct DepTables {
    /// Keys of `dependencies`.
    pub dependencies: Option<Vec<String>>,
    /// Keys of `devDependencies`.
    pub dev_dependencies: Option<Vec<String>>,
    /// Keys of `peerDependencies`.
    pub peer_dependencies: Option<Vec<String>>,
}

/// The key lists of a `package.json` as serde_json reads them: `None` when
/// the text is not JSON, else for each of the three dependency fields the
/// keys of its object (`None` when absent or not an object).
pub uninterp spec fn spec_package_deps(text: Seq<char>) -> Option<
    (Option<Seq<Seq<char>>>, Option<Seq<Seq<char>>>, Option<Seq<Seq<char>>>),
>;

/// The texts of a key list.
pub open spec fn key_views(keys: Option<Vec<String>>) -> Option<Seq<Seq<char>>> {
    match keys {
        Some(v) => Some(v@.map_values(|k: String| k@)),
        None => None,
    }
}

/// The texts of the three dependency tables.
pub open spec fn tables_view(t: DepTables) -> (
    Option<Seq<Seq<char>>>,
    Option<Seq<Seq<char>>>,
    Option<Seq<Seq<char>>>,
) {
    (key_views(t.dependencies), key_views(t.dev_dependencies), key_views(t.peer_dependencies))
}

/// Calls `serde_json::from_str` on a `package.json` text and hands back the
/// keys of its three dependency objects; the result is the named reading
/// of the text.
#[verifier::external_body]
fn read_package_deps(text: &str) -> (r: Option<DepTables>)
    ensures
        match r {
            Some(t) => spec_package_deps(text@) == Some(tables_view(t)),
            None => spec_package_deps(text@) is None,
        },
{
    let v: serde_json::Value = serde_json::from_str(text).ok()?;
    Some(DepTables {
        dependencies: v.get("dependencies").and_then(|f| f.as_object()).map(|m| m.keys().cloned().collect()),
        dev_dependencies: v.get("devDependencies").and_then(|f| f.as_object()).map(|m| m.keys().cloned().collect()),
        peer_dependencies: v.get("peerDependencies").and_then(|f| f.as_object()).map(|m| m.keys().cloned().collect()),
    })
}

/// The first signature entry at or after `k` whose dependency is a key.
pub open spec fn js_signature_from(keys: Seq<Seq<char>>, k: int) -> Option<int>
    decreases 20 - k,
{
    if k < 0 || k >= 20 {
        None
    } else if keys.contains(JS_SIGNATURES[k].0@) {
        Some(k)
    } else {
        js_signature_from(keys, k + 1)
    }
}

/// The JavaScript framework signalled by a dependency table.
pub open spec fn spec_match_js(keys: Seq<Seq<char>>) -> Option<Seq<char>> {
    match js_signature_from(keys, 0) {
        Some(k) => Some(JS_FRAMEWORKS[JS_SIGNATURES[k].1 as int]@),
        None => None,
    }
}

/// The framework of the first of the three dependency tables (in order
/// `dependencies`, `devDependencies`, `peerDependencies`) that signals one.
pub open spec fn spec_js_framework(
    tables: (Option<Seq<Seq<char>>>, Option<Seq<Seq<char>>>, Option<Seq<Seq<char>>>),
) -> Option<Seq<char>> {
    let m0 = match tables.0 {
        Some(k) => spec_match_js(k),
        None => None,
    };
    let m1 = match tables.1 {
        Some(k) => spec_match_js(k),
        None => None,
    };
    let m2 = match tables.2 {
        Some(k) => spec_match_js(k),
        None => None,
    };
    if m0 is Some {
        m0
    } else if m1 is Some {
        m1
    } else {
        m2
    }
}

/// The first marker entry at or after `k` that occurs in `text`.
pub open spec fn marker_from(text: Seq<char>, table: Seq<(&'static str, &'static str)>, k: int) -> Option<
    int,
>
    decreases table.len() - k,
{
    if k < 0 || k >= table.len() {
        None
    } else if occurs_in(table[k].0@, text) {
        Some(k)
    } else {
        marker_from(text, table, k + 1)
    }
}

/// The label of the first marker of `table` found in the lowercased text,
/// or `fallback` when none is.
pub open spec fn label_by_markers(
    text: Seq<char>,
    table: Seq<(&'static str, &'static str)>,
    fallback: Seq<char>,
) -> Seq<char> {
    match marker_from(spec_to_lowercase(text), table, 0) {
        Some(k) => table[k].1@,
        None => fallback,
    }
}

/// What is known of the manifest files of a directory: the text of each
/// that exists and could be read, whether `mix.exs` exists at all, whether
/// an `*.xcodeproj` entry and a `Package.swift` exist.
#[derive(Clone, Debug, PartialEq, Eq)]
pub struct ManifestFacts {
    /// Text of `package.json`.
    pub package_json: Option<String>,
    /// Text of `Cargo.toml`.
    pub cargo_toml: Option<String>,
    /// Text of `pyproject.toml`.
    pub pyproject_toml: Option<String>,
    /// Text of `go.mod`.
    pub go_mod: Option<String>,
    /// `mix.exs` exists.
    pub mix_exs_exists: bool,
    /// Text of `mix.exs`.
    pub mix_exs: Option<String>,
    /// Text of `pubspec.yaml`.
    pub pubspec_yaml: Option<String>,
    /// Some entry named `*.xcodeproj` exists.
    pub has_xcodeproj: bool,
    /// `Package.swift` exists.
    pub package_swift_exists: bool,
}

/// The framework a directory's manifests signal, checked in order:
/// `package.json` dependency tables (only when one matches), then
/// `Cargo.toml`, `pyproject.toml`, `go.mod` (each decides as soon as it can
/// be read), `mix.exs` (decides when it exists), `pubspec.yaml`, an Xcode
/// project, and `Package.swift`.
pub open spec fn spec_framework(f: ManifestFacts) -> Option<Seq<char>> {
    let js = match f.package_json {
        Some(text) => match spec_package_deps(text@) {
            Some(tables) => spec_js_framework(tables),
            None => None,
        },
        None => None,
    };
    if js is Some {
        js
    } else if f.cargo_toml is Some {
        Some(label_by_markers(f.cargo_toml->0@, CARGO_MARKERS@, "Rust (no framework)"@))
    } else if f.pyproject_toml is Some {
        Some(label_by_markers(f.pyproject_toml->0@, PYTHON_MARKERS@, "Python"@))
    } else if f.go_mod is Some {
        Some(label_by_markers(f.go_mod->0@, GO_MARKERS@, "Go (no framework)"@))
    } else if f.mix_exs_exists {
        Some(
            match f.mix_exs {
                Some(text) => label_by_markers(text@, MIX_MARKERS@, "Elixir (Mix)"@),
                None => "Elixir (Mix)"@,
            },
        )
    } else if f.pubspec_yaml is Some {
        Some(label_by_markers(f.pubspec_yaml->0@, PUBSPEC_MARKERS@, "Dart"@))
    } else if f.has_xcodeproj {
        Some("Xcode"@)
    } else if f.package_swift_exists {
        Some("SwiftPM"@)
    } else {
        None
    }
}

fn keys_contain(keys: &Vec<String>, name: &str) -> (r: bool)
    ensures
        r == key_views(Some(*keys))->0.contains(name@),
{
    let ghost kv = key_views(Some(*keys))->0;
    let mut i: usize = 0;
    while i < keys.len()
        invariant
            kv == keys@.map_values(|k: String| k@),
            i <= keys.len(),
            forall|j: int| 0 <= j < i ==> keys@[j]@ != name@,
        decreases keys.len() - i,
    {
        if str_eq(keys[i].as_str(), name) {
            assert(kv[i as int] == name@);
            return true;
        }
        i = i + 1;
    }
    assert(!kv.contains(name@)) by {
        if kv.contains(name@) {
            let j = choose|j: int| 0 <= j < kv.len() && kv[j] == name@;
            assert(keys@[j]@ == name@);
        }
    }
    false
}

proof fn lemma_signature_indices()
    ensures
        forall|k: int| 0 <= k < 20 ==> JS_SIGNATURES[k].1 < 18,
{
    assert forall|k: int| 0 <= k < 20 implies JS_SIGNATURES[k].1 < 18 by {
        assert(JS_SIGNATURES[k].1 < 18);
    }
}

fn match_js(keys: &Vec<String>) -> (r: Option<&'static str>)
    ensures
        match r {
            Some(l) => spec_match_js(key_views(Some(*keys))->0) == Some(l@),
            None => spec_match_js(key_views(Some(*keys))->0) is None,
        },
{
    proof {
        lemma_signature_indices();
    }
    let ghost kv = key_views(Some(*keys))->0;
    let mut k: usize = 0;
    while k < 20
        invariant
            k <= 20,
            js_signature_from(kv, 0) == js_signature_from(kv, k as int),
            kv == key_views(Some(*keys))->0,
            forall|j: int| 0 <= j < 20 ==> JS_SIGNATURES[j].1 < 18,
        decreases 20 - k,
    {
        if keys_contain(keys, JS_SIGNATURES[k].0) {
            return Some(JS_FRAMEWORKS[JS_SIGNATURES[k].1]);
        }
        k = k + 1;
    }
    None
}

fn match_table(table: &Option<Vec<String>>) -> (r: Option<&'static str>)
    ensures
        match r {
            Some(l) => (match key_views(*table) {
                Some(k) => spec_match_js(k),
                None => None,
            }) == Some(l@),
            None => (match key_views(*table) {
                Some(k) => spec_match_js(k),
                None => None,
            }) is None,
        },
{
    match table {
        Some(keys) => match_js(keys),
        None => None,
    }
}

fn js_framework(text: &str) -> (r: Option<&'static str>)
    ensures
        match r {
            Some(l) => (match spec_package_deps(text@) {
                Some(t) => spec_js_framework(t),
                None => None,
            }) == Some(l@),
            None => (match spec_package_deps(text@) {
                Some(t) => spec_js_framework(t),
                None => None,
            }) is None,
        },
{
    match read_package_deps(text) {
        Some(tables) => {
            let a = match_table(&tables.dependencies);
            if a.is_some() {
                return a;
            }
            let b = match_table(&tables.dev_dependencies);
            if b.is_some() {
                return b;
            }
            match_table(&tables.peer_dependencies)
        },
        None => None,
    }
}

fn label_for(text: &str, table: &[(&'static str, &'static str)], fallback: &'static str) -> (r:
    &'static str)
    ensures
        r@ == label_by_markers(text@, table@, fallback@),
{
    let lower = to_lowercase(text);
    let lc = chars_of(lower.as_str());
    let mut k: usize = 0;
    while k < table.len()
        invariant
            k <= table.len(),
            lc@ == spec_to_lowercase(text@),
            marker_from(lc@, table@, 0) == marker_from(lc@, table@, k as int),
        decreases table.len() - k,
    {
        if chars_contain(&lc, &chars_of(table[k].0)) {
            return table[k].1;
        }
        k = k + 1;
    }
    fallback
}

/// Detects the primary framework of a directory from its manifests.
#[derive(Clone, Copy, Debug, PartialEq, Eq, Structural)]
pub struct FrameworkDetector;

impl FrameworkDetector {
    /// Create a new framework detector.
    pub fn new() -> (d: FrameworkDetector) {
        FrameworkDetector
    }

    /// The framework the manifests signal (see [`spec_framework`]).
    pub fn framework(&self, facts: &ManifestFacts) -> (r: Option<&'static str>)
        ensures
            match r {
                Some(l) => spec_framework(*facts) == Some(l@),
                None => spec_framework(*facts) is None,
            },
    {
        match &facts.package_json {
            Some(text) => {
                let js = js_framework(text.as_str());
                if js.is_some() {
                    return js;
                }
            },
            None => {},
        }
        match &facts.cargo_toml {
            Some(text) => {
                return Some(label_for(text.as_str(), &CARGO_MARKERS, "Rust (no framework)"));
            },
            None => {},
        }
        match &facts.pyproject_toml {
            Some(text) => {
                return Some(label_for(text.as_str(), &PYTHON_MARKERS, "Python"));
            },
            None => {},
        }
        match &facts.go_mod {
            Some(text) => {
                return Some(label_for(text.as_str(), &GO_MARKERS, "Go (no framework)"));
            },
            None => {},
        }
        if facts.mix_exs_exists {
            return match &facts.mix_exs {
                Some(text) => Some(label_for(text.as_str(), &MIX_MARKERS, "Elixir (Mix)")),
                None => Some("Elixir (Mix)"),
            };
        }
        match &facts.pubspec_yaml {
            Some(text) => {
                return Some(label_for(text.as_str(), &PUBSPEC_MARKERS, "Dart"));
            },
            None => {},
        }
        if facts.has_xcodeproj {
            return Some("Xcode");
        }
        if facts.package_swift_exists {
            return Some("SwiftPM");
        }
        None
    }

    /// A detection carrying the framework, when the manifests signal one.
    pub fn detect(&self, facts: &ManifestFacts) -> (r: Option<Detection>)
        ensures
            r is None <==> spec_framework(*facts) is None,
            r matches Some(d) ==> {
                &&& !d.is_repo
                &&& d.language is None
                &&& d.package_manager is None
                &&& d.framework matches Some(fw) && Some(fw@) == spec_framework(*facts)
            },
    {
        match self.framework(facts) {
            Some(fw) => Some(
                Detection {
                    is_repo: false,
                    framework: Some(fw.to_owned()),
                    language: None,
                    package_manager: None,
                },
            ),
            None => None,
        }
    }
}

proof fn lemma_js_signature_from(keys: Seq<Seq<char>>, i: int, k: int)
    requires
        0 <= i <= k < 20,
        keys.contains(JS_SIGNATURES[k].0@),
        forall|j: int| 0 <= j < k ==> !keys.contains(#[trigger] JS_SIGNATURES[j].0@),
    ensures
        js_signature_from(keys, i) == Some(k),
    decreases k - i,
{
    if i < k {
        lemma_js_signature_from(keys, i + 1, k);
    }
}

/// A dependency table signals the framework of the first signature, in
/// table order, whose dependency it lists.
pub proof fn law_first_signature_wins(keys: Seq<Seq<char>>, k: int)
    requires
        0 <= k < 20,
        keys.contains(JS_SIGNATURES[k].0@),
        forall|j: int| 0 <= j < k ==> !keys.contains(#[trigger] JS_SIGNATURES[j].0@),
    ensures
        spec_match_js(keys) == Some(JS_FRAMEWORKS[JS_SIGNATURES[k].1 as int]@),
{
    lemma_js_signature_from(keys, 0, k);
}

/// The framework one dependency table signals, when it exists.
pub open spec fn table_signal(t: Option<Seq<Seq<char>>>) -> Option<Seq<char>> {
    match t {
        Some(k) => spec_match_js(k),
        None => None,
    }
}

/// When `package.json`'s `dependencies` signal a framework, that is the
/// framework detected, whatever `devDependencies`, `peerDependencies` or
/// the other manifests hold; `devDependencies` decide only when
/// `dependencies` signal nothing, and `peerDependencies` only when neither
/// does.
pub proof fn law_dependencies_decide_first(
    f: ManifestFacts,
    tables: (Option<Seq<Seq<char>>>, Option<Seq<Seq<char>>>, Option<Seq<Seq<char>>>),
)
    requires
        f.package_json is Some,
        spec_package_deps(f.package_json->0@) == Some(tables),
    ensures
        table_signal(tables.0) is Some ==> spec_framework(f) == table_signal(tables.0),
        table_signal(tables.0) is None && table_signal(tables.1) is Some ==> spec_framework(f)
            == table_signal(tables.1),
        table_signal(tables.0) is None && table_signal(tables.1) is None && table_signal(tables.2)
            is Some ==> spec_framework(f) == table_signal(tables.2),
{
}

} // verus!
