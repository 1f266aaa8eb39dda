//! What the desktop app hands to its interface: flat records of text,
//! numbers and flags, with instants written as RFC 3339.

use vstd::prelude::*;

use crate::config::{opt_view, spec_state_dir, spec_state_file, state_dir_in, Config};
use crate::desktop::apps::{EditorApp, TerminalApp};
use crate::model::activity::ActivityEvent;
use crate::model::git::{Commit, GitInfo};
use crate::model::time::{spec_rfc3339, Timestamp};
use crate::model::vobe::{copy_strings, Vobe};
use crate::config::join_path;
use crate::text::copy_opt;

verus! {

broadcast use vstd::string::group_string_axioms;

/// A commit as the interface sees it.
#[derive(Clone, Debug, PartialEq, Eq)]
pub struct CommitDto {
    /// Commit id.
    pub hash: String,
    /// First line of the message.
    pub message: String,
    /// Author.
    pub author: String,
    /// Commit time, RFC 3339.
    pub date: String,
}

/// Git state as the interface sees it.
#[derive(Clone, Debug, PartialEq, Eq)]
pub struct GitInfoDto {
    /// Branch.
    pub branch: String,
    /// Uncommitted changes present.
    pub dirty: bool,
    /// Commits ahead of upstream.
    pub ahead: u32,
    /// Commits behind upstream.
    pub behind: u32,
    /// Last commit.
    pub last_commit: Option<CommitDto>,
}

/// A vobe as the interface sees it.
#[derive(Clone, Debug, PartialEq, Eq)]
pub struct VobeDto {
    /// Id.
    pub id: String,
    /// Name.
    pub name: String,
    /// Path.
    pub path: String,
    /// Framework.
    pub framework: Option<String>,
    /// Language.
    pub language: Option<String>,
    /// Package manager.
    pub package_manager: Option<String>,
    /// Creation time, RFC 3339.
    pub created_at: String,
    /// Last opening, RFC 3339.
    pub last_opened: Option<String>,
    /// Last modification, RFC 3339.
    pub last_modified: Option<String>,
    /// Tags.
    pub tags: Vec<String>,
    /// Notes.
    pub notes: Option<String>,
    /// Pinned.
    pub pinned: bool,
    /// Git state.
    pub git: Option<GitInfoDto>,
}

/// An activity event as the interface sees it.
#[derive(Clone, Debug, PartialEq, Eq)]
pub struct ActivityDto {
    /// Storage id.
    pub id: Option<u64>,
    /// The vobe's id.
    pub vobe_id: String,
    /// The kind's lowercase label.
    pub kind: String,
    /// When, RFC 3339.
    pub timestamp: String,
    /// Detail.
    pub detail: Option<String>,
    /// Who triggered it.
    pub actor: String,
}

/// The characters of an optional string.
pub open spec fn opt_chars(o: Option<String>) -> Option<Seq<char>> {
    match o {
        Some(s) => Some(s@),
        None => None,
    }
}

/// An optional instant as RFC 3339.
pub open spec fn opt_instant_text(t: Option<Timestamp>) -> Option<Seq<char>> {
    match t {
        Some(x) => Some(spec_rfc3339(x.nanos)),
        None => None,
    }
}

/// The commit record of a commit.
pub open spec fn commit_dto_matches(d: CommitDto, c: Commit) -> bool {
    &&& d.hash@ == c.hash@
    &&& d.message@ == c.message@
    &&& d.author@ == c.author@
    &&& d.date@ == spec_rfc3339(c.date.nanos)
}

/// The git record of a git state.
pub open spec fn git_dto_matches(d: GitInfoDto, g: GitInfo) -> bool {
    &&& d.branch@ == g.branch@
    &&& d.dirty == g.dirty
    &&& d.ahead == g.ahead
    &&& d.behind == g.behind
    &&& match (d.last_commit, g.last_commit) {
        (Some(dc), Some(c)) => commit_dto_matches(dc, c),
        (None, None) => true,
        _ => false,
    }
}

/// The record of a vobe: every field carried over, instants as RFC 3339.
pub open spec fn vobe_dto_matches(d: VobeDto, v: Vobe) -> bool {
    &&& d.id@ == v.id.0@
    &&& d.name@ == v.name@
    &&& d.path@ == v.path@
    &&& d.framework == v.framework
    &&& d.language == v.language
    &&& d.package_manager == v.package_manager
    &&& d.created_at@ == spec_rfc3339(v.created_at.nanos)
    &&& opt_chars(d.last_opened) == opt_instant_text(v.last_opened)
    &&& opt_chars(d.last_modified) == opt_instant_text(v.last_modified)
    &&& d.tags@ == v.tags@
    &&& d.notes == v.notes
    &&& d.pinned == v.pinned
    &&& match (d.git, v.git) {
        (Some(dg), Some(g)) => git_dto_matches(dg, g),
        (None, None) => true,
        _ => false,
    }
}

/// An optional instant as RFC 3339.
fn opt_rfc3339(t: Option<Timestamp>) -> (r: Option<String>)
    ensures
        opt_chars(r) == opt_instant_text(t),
{
    match t {
        Some(x) => Some(x.to_rfc3339()),
        None => None,
    }
}

impl CommitDto {
    /// The record of a commit.
    pub fn from_commit(c: &Commit) -> (d: CommitDto)
        ensures
            commit_dto_matches(d, *c),
    {
        CommitDto {
            hash: c.hash.clone(),
            message: c.message.clone(),
            author: c.author.clone(),
            date: c.date.to_rfc3339(),
        }
    }
}

impl GitInfoDto {
    /// The record of a git state.
    pub fn from_git(g: &GitInfo) -> (d: GitInfoDto)
        ensures
            git_dto_matches(d, *g),
    {
        GitInfoDto {
            branch: g.branch.clone(),
            dirty: g.dirty,
            ahead: g.ahead,
            behind: g.behind,
            last_commit: match &g.last_commit {
                Some(c) => Some(CommitDto::from_commit(c)),
                None => None,
            },
        }
    }
}

impl VobeDto {
    /// The record of a vobe.
    pub fn from_vobe(v: &Vobe) -> (d: VobeDto)
        ensures
            vobe_dto_matches(d, *v),
    {
        VobeDto {
            id: v.id.0.clone(),
            name: v.name.clone(),
            path: v.path.clone(),
            framework: copy_opt(&v.framework),
            language: copy_opt(&v.language),
            package_manager: copy_opt(&v.package_manager),
            created_at: v.created_at.to_rfc3339(),
            last_opened: opt_rfc3339(v.last_opened),
            last_modified: opt_rfc3339(v.last_modified),
            tags: copy_strings(&v.tags),
            notes: copy_opt(&v.notes),
            pinned: v.pinned,
            git: match &v.git {
                Some(g) => Some(GitInfoDto::from_git(g)),
                None => None,
            },
        }
    }
}

impl ActivityDto {
    /// The record of an event; its kind is the lowercase label.
    pub fn from_event(e: &ActivityEvent) -> (d: ActivityDto)
        ensures
            d.id == e.id,
            d.vobe_id@ == e.vobe_id.0@,
            d.kind@ == e.kind.spec_label(),
            d.timestamp@ == spec_rfc3339(e.timestamp.nanos),
            d.detail == e.detail,
            d.actor@ == e.actor@,
    {
        ActivityDto {
            id: e.id,
            vobe_id: e.vobe_id.0.clone(),
            kind: e.kind.to_string(),
            timestamp: e.timestamp.to_rfc3339(),
            detail: copy_opt(&e.detail),
            actor: e.actor.clone(),
        }
    }
}

/// Where the desktop app keeps its files, for the settings view.
#[derive(Clone, Debug, PartialEq, Eq)]
pub struct PathsDto {
    /// Configuration file.
    pub config: String,
    /// Database file.
    pub db: String,
    /// Snapshots directory.
    pub snapshots: String,
    /// State directory.
    pub state_dir: String,
}

/// A path, or the empty text when there is none.
pub open spec fn or_empty(o: Option<Seq<char>>) -> Seq<char> {
    match o {
        Some(s) => s,
        None => Seq::empty(),
    }
}

/// The paths shown for a configuration directory and data directory name
/// (empty texts when the platform has no configuration directory).
pub open spec fn paths_match(p: PathsDto, config_dir: Option<Seq<char>>, app_dir: Seq<char>) -> bool {
    &&& p.config@ == or_empty(spec_state_file(config_dir, app_dir, "config.toml"@))
    &&& p.db@ == or_empty(spec_state_file(config_dir, app_dir, "vobes.db"@))
    &&& p.snapshots@ == or_empty(spec_state_file(config_dir, app_dir, "snapshots"@))
    &&& p.state_dir@ == or_empty(spec_state_dir(config_dir, app_dir))
}

/// `name` below a state directory, or the empty text.
fn below_or_empty(state: &Option<String>, name: &str) -> (r: String)
    ensures
        r@ == or_empty(
            match state {
                Some(d) => Some(crate::config::spec_join(d@, name@)),
                None => None,
            },
        ),
{
    match state {
        Some(d) => join_path(d.as_str(), name),
        None => String::new(),
    }
}

impl PathsDto {
    /// The paths below a configuration directory, for a data directory
    /// name.
    pub fn in_config_dir(config_dir: Option<String>, app_dir: &str) -> (p: PathsDto)
        ensures
            paths_match(p, opt_view(config_dir), app_dir@),
    {
        let state = state_dir_in(config_dir, app_dir);
        PathsDto {
            config: below_or_empty(&state, "config.toml"),
            db: below_or_empty(&state, "vobes.db"),
            snapshots: below_or_empty(&state, "snapshots"),
            state_dir: match &state {
                Some(d) => d.clone(),
                None => String::new(),
            },
        }
    }
}

/// The configuration and where it lives, for the settings view.
#[derive(Clone, Debug, PartialEq, Eq)]
pub struct ConfigDto {
    /// The configuration file in use.
    pub path: String,
    /// Where the app keeps its files.
    pub paths: PathsDto,
    /// The configuration.
    pub config: Config,
}

/// One TODO-style comment found in a project.
#[derive(Clone, Debug, PartialEq, Eq)]
pub struct TodoHit {
    /// `FIXME`, `TODO` or `XXX`.
    pub kind: String,
    /// Line number, from 1.
    pub line: u32,
    /// File, relative to the project.
    pub file: String,
    /// The line, trimmed.
    pub text: String,
}

/// Everything an agent needs about one project.
#[derive(Clone, Debug, PartialEq, Eq)]
pub struct ContextPack {
    /// The vobe.
    pub vobe: VobeDto,
    /// Its recent activity, newest first.
    pub activity: Vec<ActivityDto>,
    /// Its top-level entries (at most 50).
    pub directory: Vec<String>,
    /// When the pack was made, RFC 3339.
    pub generated_at: String,
}

/// A saved search.
#[derive(Clone, Debug, PartialEq, Eq)]
pub struct SavedFilter {
    /// Caller-chosen stable key.
    pub id: String,
    /// Label.
    pub label: String,
    /// The search text.
    pub query: String,
    /// When it was created.
    pub created_at: Timestamp,
}

/// A saved search as the interface sees it.
#[derive(Clone, Debug, PartialEq, Eq)]
pub struct SavedFilterDto {
    /// Key.
    pub id: String,
    /// Label.
    pub label: String,
    /// Search text.
    pub query: String,
    /// Creation time, RFC 3339.
    pub created_at: String,
}

impl SavedFilterDto {
    /// The record of a saved search.
    pub fn from_filter(f: &SavedFilter) -> (d: SavedFilterDto)
        ensures
            d.id@ == f.id@,
            d.label@ == f.label@,
            d.query@ == f.query@,
            d.created_at@ == spec_rfc3339(f.created_at.nanos),
    {
        SavedFilterDto {
            id: f.id.clone(),
            label: f.label.clone(),
            query: f.query.clone(),
            created_at: f.created_at.to_rfc3339(),
        }
    }
}

/// A snapshot file, for the settings view.
#[derive(Clone, Debug, PartialEq, Eq)]
pub struct SnapshotInfoDto {
    /// Full path.
    pub path: String,
    /// File name.
    pub name: String,
    /// Size in bytes.
    pub size_bytes: u64,
    /// Last modification, RFC 3339 (empty when unknown).
    pub modified_at: String,
}

/// A terminal as the interface sees it.
#[derive(Clone, Debug, PartialEq, Eq)]
pub struct TerminalAppDto {
    /// Key.
    pub id: String,
    /// Label.
    pub label: String,
    /// Default.
    pub is_default: bool,
}

/// An editor as the interface sees it.
#[derive(Clone, Debug, PartialEq, Eq)]
pub struct EditorAppDto {
    /// Key.
    pub id: String,
    /// Label.
    pub label: String,
    /// Default.
    pub is_default: bool,
}

impl TerminalAppDto {
    /// The record of a terminal.
    pub fn from_app(t: &TerminalApp) -> (d: TerminalAppDto)
        ensures
            d.id@ == t.id@,
            d.label@ == t.label@,
            d.is_default == t.is_default,
    {
        TerminalAppDto { id: t.id.clone(), label: t.label.clone(), is_default: t.is_default }
    }
}

impl EditorAppDto {
    /// The record of an editor.
    pub fn from_app(e: &EditorApp) -> (d: EditorAppDto)
        ensures
            d.id@ == e.id@,
            d.label@ == e.label@,
            d.is_default == e.is_default,
    {
        EditorAppDto { id: e.id.clone(), label: e.label.clone(), is_default: e.is_default }
    }
}

} // verus!
