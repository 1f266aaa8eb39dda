//! Configuration model, its defaults, and where vobes keeps its files.
//!
//! Paths are handled as text with Unix separators: joining follows the
//! rules of `Path::join` there (an absolute part replaces what came before,
//! a relative one is appended after a single `/`).

use vstd::prelude::*;

use crate::text::{chars_of, concat, string_of};

verus! {

broadcast use vstd::string::group_string_axioms;

/// Scanner settings.
#[derive(Clone, Debug, PartialEq, Eq)]
pub struct ScanConfig {
    /// Roots to scan; a leading `~` stands for the home directory.
    pub roots: Vec<String>,
    /// Additional excluded directory names, on top of the built-in ones.
    pub exclude: Vec<String>,
    /// Maximum directory depth to walk.
    pub max_depth: usize,
    /// Whether to follow symlinks.
    pub follow_symlinks: bool,
}

/// Display preferences.
#[derive(Clone, Debug, PartialEq, Eq)]
pub struct DisplayConfig {
    /// `"auto"`, `"light"` or `"dark"`.
    pub theme: String,
}

/// Desktop preferences (the command line ignores them).
#[derive(Clone, Debug, PartialEq, Eq)]
pub struct DesktopConfig {
    /// Notify when a project is behind its upstream.
    pub notify_behind: bool,
}

/// The whole configuration.
#[derive(Clone, Debug, PartialEq, Eq)]
pub struct Config {
    /// Scanner settings.
    pub scan: ScanConfig,
    /// Display settings.
    pub display: DisplayConfig,
    /// Desktop preferences.
    pub desktop: DesktopConfig,
}

/// Why a configuration could not be read, parsed or written.
#[derive(Clone, Debug, PartialEq, Eq)]
pub enum ConfigError {
    /// The file (first field) could not be read, for the reason given.
    Read(String, String),
    /// The file (first field) could not be parsed, for the reason given.
    Parse(String, String),
    /// The configuration could not be written, for the reason given.
    Write(String),
}

impl ConfigError {
    /// The text of the message.
    pub open spec fn spec_message(&self) -> Seq<char> {
        match self {
            ConfigError::Read(p, e) => "cannot read config "@ + p@ + ": "@ + e@,
            ConfigError::Parse(p, e) => "cannot parse config "@ + p@ + ": "@ + e@,
            ConfigError::Write(e) => "cannot write config: "@ + e@,
        }
    }

    /// The human-readable message.
    pub fn message(&self) -> (r: String)
        ensures
            r@ == self.spec_message(),
    {
        match self {
            ConfigError::Read(p, e) => concat(&concat(&concat("cannot read config ", p), ": "), e),
            ConfigError::Parse(p, e) => concat(
                &concat(&concat("cannot parse config ", p), ": "),
                e,
            ),
            ConfigError::Write(e) => concat("cannot write config: ", e),
        }
    }
}

impl Default for ScanConfig {
    /// Scan `~/dev`, four levels deep, without following symlinks.
    fn default() -> (c: ScanConfig)
        ensures
            c.roots@.len() == 1,
            c.roots@[0]@ == "~/dev"@,
            c.exclude@.len() == 0,
            c.max_depth == 4,
            !c.follow_symlinks,
    {
        let mut roots: Vec<String> = Vec::new();
        roots.push(String::from_str("~/dev"));
        ScanConfig { roots, exclude: Vec::new(), max_depth: 4, follow_symlinks: false }
    }
}

impl Default for DisplayConfig {
    /// The `"auto"` theme.
    fn default() -> (c: DisplayConfig)
        ensures
            c.theme@ == "auto"@,
    {
        DisplayConfig { theme: String::from_str("auto") }
    }
}

impl Default for DesktopConfig {
    /// Notifications off.
    fn default() -> (c: DesktopConfig)
        ensures
            !c.notify_behind,
    {
        DesktopConfig { notify_behind: false }
    }
}

/// Whether a configuration holds the defaults of every section.
pub open spec fn is_default_config(c: Config) -> bool {
    &&& c.scan.roots@.len() == 1
    &&& c.scan.roots@[0]@ == "~/dev"@
    &&& c.scan.exclude@.len() == 0
    &&& c.scan.max_depth == 4
    &&& !c.scan.follow_symlinks
    &&& c.display.theme@ == "auto"@
    &&& !c.desktop.notify_behind
}

impl Default for Config {
    /// Every section at its default.
    fn default() -> (c: Config)
        ensures
            is_default_config(c),
    {
        Config {
            scan: ScanConfig::default(),
            display: DisplayConfig::default(),
            desktop: DesktopConfig::default(),
        }
    }
}

/// `base` joined with `part` as `Path::join` does on Unix.
pub open spec fn spec_join(base: Seq<char>, part: Seq<char>) -> Seq<char> {
    if part.len() > 0 && part[0] == '/' {
        part
    } else if base.len() > 0 && base.last() != '/' {
        base + seq!['/'] + part
    } else {
        base + part
    }
}

/// Join two paths as `Path::join` does on Unix.
pub fn join_path(base: &str, part: &str) -> (r: String)
    ensures
        r@ == spec_join(base@, part@),
{
    let b = chars_of(base);
    let p = chars_of(part);
    if p.len() > 0 && p[0] == '/' {
        string_of(&p)
    } else if b.len() > 0 && b[b.len() - 1] != '/' {
        proof {
            reveal_strlit("/");
        }
        concat(&concat(base, "/"), part)
    } else {
        concat(base, part)
    }
}

/// Whether a path starts with the home marker: exactly `~`, or `~/...`.
pub open spec fn is_home_relative(p: Seq<char>) -> bool {
    p.len() > 0 && p[0] == '~' && (p.len() == 1 || p[1] == '/')
}

/// `s` without its leading `/` characters.
pub open spec fn trim_leading_slashes(s: Seq<char>) -> Seq<char>
    decreases s.len(),
{
    if s.len() > 0 && s[0] == '/' {
        trim_leading_slashes(s.drop_first())
    } else {
        s
    }
}

/// A path with `~` expanded against the given home directory: `None` when
/// the path needs a home directory and none is known.
pub open spec fn spec_expand_home(p: Seq<char>, home: Option<Seq<char>>) -> Option<Seq<char>> {
    if is_home_relative(p) {
        match home {
            Some(h) => Some(spec_join(h, trim_leading_slashes(p.drop_first()))),
            None => None,
        }
    } else {
        Some(p)
    }
}

/// The characters of an optional string.
pub open spec fn opt_view(o: Option<String>) -> Option<Seq<char>> {
    match o {
        Some(s) => Some(s@),
        None => None,
    }
}

/// Calls `dirs::home_dir`; the answer depends on the environment and the
/// user database of the machine, so nothing is promised of it.
#[verifier::external_body]
fn home_dir() -> Option<String> {
    match dirs::home_dir() {
        Some(p) => Some(p.to_string_lossy().into_owned()),
        None => None,
    }
}

/// Calls `dirs::config_dir`; the answer depends on the platform and the
/// environment, so nothing is promised of it.
#[verifier::external_body]
fn config_dir() -> Option<String> {
    match dirs::config_dir() {
        Some(p) => Some(p.to_string_lossy().into_owned()),
        None => None,
    }
}

/// Expand a leading `~` against the given home directory.
pub fn expand_home_with(p: &str, home: Option<String>) -> (r: Option<String>)
    ensures
        opt_view(r) == spec_expand_home(p@, opt_view(home)),
{
    let v = chars_of(p);
    if v.len() > 0 && v[0] == '~' && (v.len() == 1 || v[1] == '/') {
        match home {
            Some(h) => {
                let mut i: usize = 1;
                while i < v.len() && v[i] == '/'
                    invariant
                        1 <= i <= v.len(),
                        v@ == p@,
                        trim_leading_slashes(v@.drop_first()) == trim_leading_slashes(
                            v@.subrange(i as int, v.len() as int),
                        ),
                    decreases v.len() - i,
                {
                    proof {
                        let rest = v@.subrange(i as int, v.len() as int);
                        assert(rest.drop_first() =~= v@.subrange(i + 1, v.len() as int));
                    }
                    i = i + 1;
                }
                proof {
                    let rest = v@.subrange(i as int, v.len() as int);
                    assert(v@.drop_first() =~= v@.subrange(1, v.len() as int));
                    assert(trim_leading_slashes(rest) == rest);
                }
                let mut tail: Vec<char> = Vec::new();
                let mut j: usize = i;
                while j < v.len()
                    invariant
                        i <= j <= v.len(),
                        tail@ == v@.subrange(i as int, j as int),
                    decreases v.len() - j,
                {
                    tail.push(v[j]);
                    j = j + 1;
                    assert(tail@ =~= v@.subrange(i as int, j as int));
                }
                Some(join_path(&h, &string_of(&tail)))
            },
            None => None,
        }
    } else {
        Some(string_of(&v))
    }
}

/// Expand a leading `~` to the user's home directory. A path without it
/// comes back as it is; one with it comes back joined to the home
/// directory that was found, or `None` when none was.
pub fn expand_home(p: &str) -> (r: Option<String>)
    ensures
        !is_home_relative(p@) ==> opt_view(r) == Some(p@),
        exists|home: Option<Seq<char>>| opt_view(r) == spec_expand_home(p@, home),
{
    let home = home_dir();
    let r = expand_home_with(p, home);
    assert(opt_view(r) == spec_expand_home(p@, opt_view(home)));
    r
}

/// A root resolved against the home directory: a leading `~` expanded
/// when a home directory is known, otherwise the root as written.
pub open spec fn spec_resolve_root(r: Seq<char>, home: Option<Seq<char>>) -> Seq<char> {
    match spec_expand_home(r, home) {
        Some(x) => x,
        None => r,
    }
}

/// The characters of each string.
pub open spec fn views(v: Seq<String>) -> Seq<Seq<char>> {
    v.map_values(|s: String| s@)
}

/// `out` holds each of `roots` resolved against `home`, in order: one
/// entry per configured root.
pub open spec fn resolved_against(
    roots: Seq<String>,
    out: Seq<String>,
    home: Option<Seq<char>>,
) -> bool {
    &&& out.len() == roots.len()
    &&& forall|i: int|
        0 <= i < out.len() ==> #[trigger] out[i]@ == spec_resolve_root(roots[i]@, home)
}

/// Resolving roots against a home directory keeps one entry per root, in
/// order; a root that does not start with `~` (or `~/`), or any root when
/// no home is known, comes back as written; and `~/<x>` (with `<x>` not
/// starting with `/`) becomes `<home>/<x>` for a home that does not end
/// with `/`.
pub proof fn law_roots_resolve_against_home(
    roots: Seq<String>,
    out: Seq<String>,
    home: Option<Seq<char>>,
    i: int,
    x: Seq<char>,
)
    requires
        resolved_against(roots, out, home),
        0 <= i < roots.len(),
    ensures
        out.len() == roots.len(),
        !is_home_relative(roots[i]@) ==> out[i]@ == roots[i]@,
        home is None ==> out[i]@ == roots[i]@,
        home matches Some(h) && h.len() > 0 && h.last() != '/' && roots[i]@ == seq!['~', '/'] + x
            && (x.len() == 0 || x[0] != '/') ==> out[i]@ == home->0 + seq!['/'] + x,
{
    let r = roots[i]@;
    if r == seq!['~', '/'] + x && (x.len() == 0 || x[0] != '/') {
        assert(r.drop_first() =~= seq!['/'] + x);
        assert((seq!['/'] + x).drop_first() =~= x);
        assert(trim_leading_slashes(x) == x);
        assert(trim_leading_slashes(seq!['/'] + x) == trim_leading_slashes(x));
    }
}

impl Config {
    /// The scan roots resolved against the given home directory: one per
    /// configured root, with a leading `~` expanded (a root that cannot be
    /// expanded is kept as written).
    pub fn resolved_roots_with(&self, home: Option<String>) -> (r: Vec<String>)
        ensures
            resolved_against(self.scan.roots@, r@, opt_view(home)),
    {
        let mut out: Vec<String> = Vec::new();
        let mut i: usize = 0;
        while i < self.scan.roots.len()
            invariant
                i <= self.scan.roots@.len(),
                out@.len() == i,
                forall|k: int|
                    0 <= k < i ==> #[trigger] out@[k]@ == spec_resolve_root(
                        self.scan.roots@[k]@,
                        opt_view(home),
                    ),
            decreases self.scan.roots@.len() - i,
        {
            let root = &self.scan.roots[i];
            let h = match &home {
                Some(h) => Some(h.clone()),
                None => None,
            };
            let resolved = match expand_home_with(root.as_str(), h) {
                Some(x) => x,
                None => root.clone(),
            };
            out.push(resolved);
            i = i + 1;
        }
        out
    }

    /// The scan roots, one per configured root, each with a leading `~`
    /// expanded to the home directory (a root that cannot be expanded is
    /// kept as written).
    pub fn resolved_roots(&self) -> (r: Vec<String>)
        ensures
            exists|home: Option<Seq<char>>| #[trigger] resolved_against(self.scan.roots@, r@, home),
    {
        let home = home_dir();
        let ghost h = opt_view(home);
        let r = self.resolved_roots_with(home);
        assert(resolved_against(self.scan.roots@, r@, h));
        r
    }
}

/// The data directory's name: a non-empty override wins; otherwise
/// `vobes`, with `-dev` appended for debug builds.
pub open spec fn spec_app_dir_name(override_: Option<Seq<char>>, debug: bool) -> Seq<char> {
    match override_ {
        Some(o) if o.len() > 0 => o,
        _ => if debug {
            "vobes-dev"@
        } else {
            "vobes"@
        },
    }
}

/// The data directory's name, from the override setting (if any) and the
/// build profile.
pub fn app_dir_name(override_: Option<String>, debug: bool) -> (r: String)
    ensures
        r@ == spec_app_dir_name(opt_view(override_), debug),
{
    match override_ {
        Some(o) => {
            if chars_of(&o).len() > 0 {
                return o;
            }
        },
        None => {},
    }
    if debug {
        String::from_str("vobes-dev")
    } else {
        String::from_str("vobes")
    }
}

/// The state directory below the given configuration directory.
pub open spec fn spec_state_dir(config_dir: Option<Seq<char>>, app_dir: Seq<char>) -> Option<
    Seq<char>,
> {
    match config_dir {
        Some(d) => Some(spec_join(d, app_dir)),
        None => None,
    }
}

/// A file or directory below the state directory.
pub open spec fn spec_state_file(
    config_dir: Option<Seq<char>>,
    app_dir: Seq<char>,
    name: Seq<char>,
) -> Option<Seq<char>> {
    match spec_state_dir(config_dir, app_dir) {
        Some(d) => Some(spec_join(d, name)),
        None => None,
    }
}

/// For one configuration directory, the configuration file, the database
/// and the snapshots directory are all known or all unknown, and they lie
/// side by side in the state directory.
pub proof fn law_state_paths_share_one_directory(config_dir: Option<Seq<char>>, app_dir: Seq<char>)
    ensures
        spec_state_file(config_dir, app_dir, "config.toml"@) is Some <==> spec_state_file(
            config_dir,
            app_dir,
            "vobes.db"@,
        ) is Some,
        spec_state_file(config_dir, app_dir, "vobes.db"@) is Some <==> spec_state_file(
            config_dir,
            app_dir,
            "snapshots"@,
        ) is Some,
        spec_state_dir(config_dir, app_dir) matches Some(d) ==> {
            &&& spec_state_file(config_dir, app_dir, "config.toml"@) == Some(spec_join(d, "config.toml"@))
            &&& spec_state_file(config_dir, app_dir, "vobes.db"@) == Some(spec_join(d, "vobes.db"@))
            &&& spec_state_file(config_dir, app_dir, "snapshots"@) == Some(spec_join(d, "snapshots"@))
        },
{
}

/// The state directory below a configuration directory, if one is known.
pub fn state_dir_in(config_dir: Option<String>, app_dir: &str) -> (r: Option<String>)
    ensures
        opt_view(r) == spec_state_dir(opt_view(config_dir), app_dir@),
{
    match config_dir {
        Some(d) => Some(join_path(&d, app_dir)),
        None => None,
    }
}

/// `name` below the state directory, if one is known.
fn state_file_in(config_dir: Option<String>, app_dir: &str, name: &str) -> (r: Option<String>)
    ensures
        opt_view(r) == spec_state_file(opt_view(config_dir), app_dir@, name@),
{
    match state_dir_in(config_dir, app_dir) {
        Some(d) => Some(join_path(&d, name)),
        None => None,
    }
}

/// The directory that holds all state (configuration, database,
/// snapshots): the platform's configuration directory joined with the
/// data directory's name; `None` when the platform has none.
pub fn state_dir(app_dir: &str) -> (r: Option<String>)
    ensures
        exists|cd: Option<Seq<char>>| opt_view(r) == spec_state_dir(cd, app_dir@),
{
    let cd = config_dir();
    let r = state_dir_in(cd, app_dir);
    assert(opt_view(r) == spec_state_dir(opt_view(cd), app_dir@));
    r
}

/// The configuration file, `config.toml` in the state directory.
pub fn config_path(app_dir: &str) -> (r: Option<String>)
    ensures
        exists|cd: Option<Seq<char>>| opt_view(r) == spec_state_file(cd, app_dir@, "config.toml"@),
{
    let cd = config_dir();
    let r = state_file_in(cd, app_dir, "config.toml");
    assert(opt_view(r) == spec_state_file(opt_view(cd), app_dir@, "config.toml"@));
    r
}

/// The database file, `vobes.db` in the state directory.
pub fn db_path(app_dir: &str) -> (r: Option<String>)
    ensures
        exists|cd: Option<Seq<char>>| opt_view(r) == spec_state_file(cd, app_dir@, "vobes.db"@),
{
    let cd = config_dir();
    let r = state_file_in(cd, app_dir, "vobes.db");
    assert(opt_view(r) == spec_state_file(opt_view(cd), app_dir@, "vobes.db"@));
    r
}

/// The snapshots directory, `snapshots` in the state directory.
pub fn snapshots_dir(app_dir: &str) -> (r: Option<String>)
    ensures
        exists|cd: Option<Seq<char>>| opt_view(r) == spec_state_file(cd, app_dir@, "snapshots"@),
{
    let cd = config_dir();
    let r = state_file_in(cd, app_dir, "snapshots");
    assert(opt_view(r) == spec_state_file(opt_view(cd), app_dir@, "snapshots"@));
    r
}

} // verus!
