//! How vobes and activity events are laid out in database rows, and read
//! back from them.

use vstd::prelude::*;

use crate::model::activity::{default_actor, ActivityEvent, ActivityKind};
use crate::model::error::VobeId;
use crate::model::git::{Commit, GitInfo};
use crate::model::time::{spec_parse_rfc3339, spec_rfc3339, Timestamp};
use crate::model::vobe::{tag_views, Vobe};
use crate::path::{has_drive, normalize, spec_normalize};
use crate::path_laws::law_normalize_idempotent;
use crate::text::str_eq;
use crate::text::copy_opt;

verus! {

broadcast use vstd::string::group_string_axioms;

/// The RFC 3339 text of an optional instant.
pub open spec fn opt_instant_text(t: Option<Timestamp>) -> Option<Seq<char>> {
    match t {
        Some(x) => Some(spec_rfc3339(x.nanos)),
        None => None,
    }
}

/// What `serde_json::to_string` writes for a list of strings.
pub uninterp spec fn spec_tags_json(tags: Seq<Seq<char>>) -> Seq<char>;

/// What `serde_json::from_str` reads from a text as a list of strings.
pub uninterp spec fn spec_parse_tags(text: Seq<char>) -> Option<Seq<Seq<char>>>;

/// The texts of an optional list of strings.
pub open spec fn opt_tag_views(o: Option<Vec<String>>) -> Option<Seq<Seq<char>>> {
    match o {
        Some(v) => Some(tag_views(v@)),
        None => None,
    }
}

/// Calls `serde_json::to_string` on the tags; the text is the named JSON
/// rendering of the list. Writing a list of strings into memory cannot
/// fail, and `serde_json::from_str` reads the same list back from it.
#[verifier::external_body]
fn tags_json(tags: &Vec<String>) -> (r: String)
    ensures
        r@ == spec_tags_json(tag_views(tags@)),
        spec_parse_tags(r@) == Some(tag_views(tags@)),
{
    serde_json::to_string(tags).unwrap_or_default()
}

/// Calls `serde_json::from_str` to read a list of strings; the result is
/// the named reading of the text.
#[verifier::external_body]
fn parse_tags(text: &str) -> (r: Option<Vec<String>>)
    ensures
        opt_tag_views(r) == spec_parse_tags(text@),
{
    serde_json::from_str::<Vec<String>>(text).ok()
}

/// The columns of one row of the `vobes` table.
#[derive(Clone, Debug, PartialEq, Eq)]
pub struct VobeRow {
    /// `id`.
    pub id: String,
    /// `name`.
    pub name: String,
    /// `path`, normalized.
    pub path: String,
    /// `framework`.
    pub framework: Option<String>,
    /// `language`.
    pub language: Option<String>,
    /// `package_manager`.
    pub package_manager: Option<String>,
    /// `created_at`, RFC 3339.
    pub created_at: String,
    /// `last_opened`, RFC 3339.
    pub last_opened: Option<String>,
    /// `last_modified`, RFC 3339.
    pub last_modified: Option<String>,
    /// `tags`, a JSON list of strings.
    pub tags: String,
    /// `notes`.
    pub notes: Option<String>,
    /// `pinned`, 0 or 1.
    pub pinned: i64,
    /// `git_branch`; a vobe has git state exactly when it is set.
    pub git_branch: Option<String>,
    /// `git_dirty`, 0 or 1.
    pub git_dirty: i64,
    /// `git_ahead`.
    pub git_ahead: i64,
    /// `git_behind`.
    pub git_behind: i64,
    /// `git_last_hash`.
    pub git_last_hash: Option<String>,
    /// `git_last_msg`.
    pub git_last_msg: Option<String>,
    /// `git_last_author`.
    pub git_last_author: Option<String>,
    /// `git_last_date`, RFC 3339.
    pub git_last_date: Option<String>,
}

/// The columns of one row of the `activity` table, as they are read.
#[derive(Clone, Debug, PartialEq, Eq)]
pub struct ActivityRow {
    /// `id`, assigned by the database.
    pub id: i64,
    /// `vobe_id`.
    pub vobe_id: String,
    /// `kind`, the variant's name.
    pub kind: String,
    /// `timestamp`, RFC 3339.
    pub timestamp: String,
    /// `detail`.
    pub detail: Option<String>,
}

/// The values written for one new activity event: vobe id, kind name,
/// RFC 3339 timestamp, detail.
#[derive(Clone, Debug, PartialEq, Eq)]
pub struct ActivityInsert {
    /// `vobe_id`.
    pub vobe_id: String,
    /// `kind`.
    pub kind: &'static str,
    /// `timestamp`.
    pub timestamp: String,
    /// `detail`.
    pub detail: Option<String>,
}

/// The stored name of each kind: the variant's own name.
pub open spec fn spec_kind_name(k: ActivityKind) -> Seq<char> {
    match k {
        ActivityKind::Opened => "Opened"@,
        ActivityKind::Modified => "Modified"@,
        ActivityKind::Committed => "Committed"@,
        ActivityKind::Scanned => "Scanned"@,
        ActivityKind::Created => "Created"@,
        ActivityKind::Closed => "Closed"@,
        ActivityKind::Tagged => "Tagged"@,
        ActivityKind::Noted => "Noted"@,
    }
}

/// The kind stored under a name; an unknown name reads as `Scanned`.
pub open spec fn spec_kind_from_name(s: Seq<char>) -> ActivityKind {
    if s == "Opened"@ {
        ActivityKind::Opened
    } else if s == "Modified"@ {
        ActivityKind::Modified
    } else if s == "Committed"@ {
        ActivityKind::Committed
    } else if s == "Scanned"@ {
        ActivityKind::Scanned
    } else if s == "Created"@ {
        ActivityKind::Created
    } else if s == "Closed"@ {
        ActivityKind::Closed
    } else if s == "Tagged"@ {
        ActivityKind::Tagged
    } else if s == "Noted"@ {
        ActivityKind::Noted
    } else {
        ActivityKind::Scanned
    }
}

/// The stored name of a kind.
pub fn kind_to_str(k: ActivityKind) -> (r: &'static str)
    ensures
        r@ == spec_kind_name(k),
{
    match k {
        ActivityKind::Opened => "Opened",
        ActivityKind::Modified => "Modified",
        ActivityKind::Committed => "Committed",
        ActivityKind::Scanned => "Scanned",
        ActivityKind::Created => "Created",
        ActivityKind::Closed => "Closed",
        ActivityKind::Tagged => "Tagged",
        ActivityKind::Noted => "Noted",
    }
}

/// The kind stored under a name (`Scanned` for an unknown one).
pub fn kind_from_str(s: &str) -> (k: ActivityKind)
    ensures
        k == spec_kind_from_name(s@),
{
    if str_eq(s, "Opened") {
        ActivityKind::Opened
    } else if str_eq(s, "Modified") {
        ActivityKind::Modified
    } else if str_eq(s, "Committed") {
        ActivityKind::Committed
    } else if str_eq(s, "Scanned") {
        ActivityKind::Scanned
    } else if str_eq(s, "Created") {
        ActivityKind::Created
    } else if str_eq(s, "Closed") {
        ActivityKind::Closed
    } else if str_eq(s, "Tagged") {
        ActivityKind::Tagged
    } else if str_eq(s, "Noted") {
        ActivityKind::Noted
    } else {
        ActivityKind::Scanned
    }
}

/// Reading back the stored name of a kind gives the kind.
pub proof fn law_kind_name_round_trip(k: ActivityKind)
    ensures
        spec_kind_from_name(spec_kind_name(k)) == k,
{
    reveal_strlit("Opened");
    reveal_strlit("Modified");
    reveal_strlit("Committed");
    reveal_strlit("Scanned");
    reveal_strlit("Created");
    reveal_strlit("Closed");
    reveal_strlit("Tagged");
    reveal_strlit("Noted");
    let names = seq!["Opened"@, "Modified"@, "Committed"@, "Scanned"@, "Created"@, "Closed"@,
        "Tagged"@, "Noted"@];
    assert forall|i: int, j: int| 0 <= i < j < 8 implies names[i] != names[j] by {
        if names[i].len() == names[j].len() {
            assert(names[i][0] != names[j][0] || names[i][1] != names[j][1]);
        }
    }
    assert(names[0] == "Opened"@);
    assert(names[1] == "Modified"@);
    assert(names[2] == "Committed"@);
    assert(names[3] == "Scanned"@);
    assert(names[4] == "Created"@);
    assert(names[5] == "Closed"@);
    assert(names[6] == "Tagged"@);
    assert(names[7] == "Noted"@);
}

/// The characters of an optional string.
pub open spec fn opt_chars(o: Option<String>) -> Option<Seq<char>> {
    match o {
        Some(s) => Some(s@),
        None => None,
    }
}

/// An optional instant written as RFC 3339.
fn opt_rfc3339(t: Option<Timestamp>) -> (r: Option<String>)
    ensures
        r matches Some(s) ==> t matches Some(x) && spec_parse_rfc3339(s@) == Some(x.nanos),
        r is None <==> t is None,
        opt_chars(r) == opt_instant_text(t),
{
    match t {
        Some(x) => Some(x.to_rfc3339()),
        None => None,
    }
}

/// An optional RFC 3339 text read as an instant (`None` when absent or
/// unreadable).
pub open spec fn spec_opt_instant(s: Option<Seq<char>>) -> Option<Timestamp> {
    match s {
        Some(t) => match spec_parse_rfc3339(t) {
            Some(n) => Some(Timestamp { nanos: n }),
            None => None,
        },
        None => None,
    }
}

/// An optional RFC 3339 text read as an instant.
fn opt_instant(s: &Option<String>) -> (r: Option<Timestamp>)
    ensures
        r == spec_opt_instant(opt_chars(*s)),
{
    match s {
        Some(t) => Timestamp::parse_rfc3339(t.as_str()),
        None => None,
    }
}

/// A count column read back: negative values read as zero, and the value
/// is then taken modulo 2^32.
pub open spec fn spec_count(x: i64) -> u32 {
    if x < 0 {
        0
    } else {
        x as u32
    }
}

/// The row written for a vobe. Paths are stored normalized; `git_dirty`
/// and `pinned` are 0 or 1; commit columns are set exactly when the vobe
/// has git state with a last commit.
pub open spec fn row_encodes(row: VobeRow, v: Vobe) -> bool {
    &&& row.id@ == v.id.0@
    &&& row.name@ == v.name@
    &&& row.path@ == spec_normalize(v.path@)
    &&& row.framework == v.framework
    &&& row.language == v.language
    &&& row.package_manager == v.package_manager
    &&& row.created_at@ == spec_rfc3339(v.created_at.nanos)
    &&& spec_parse_rfc3339(row.created_at@) == Some(v.created_at.nanos)
    &&& opt_chars(row.last_opened) == opt_instant_text(v.last_opened)
    &&& opt_chars(row.last_modified) == opt_instant_text(v.last_modified)
    &&& spec_opt_instant(opt_chars(row.last_opened)) == v.last_opened
    &&& spec_opt_instant(opt_chars(row.last_modified)) == v.last_modified
    &&& spec_parse_tags(row.tags@) == Some(tag_views(v.tags@))
    &&& row.tags@ == spec_tags_json(tag_views(v.tags@))
    &&& row.notes == v.notes
    &&& row.pinned == (if v.pinned { 1i64 } else { 0i64 })
    &&& match v.git {
        Some(g) => {
            &&& row.git_branch == Some(g.branch)
            &&& row.git_dirty == (if g.dirty { 1i64 } else { 0i64 })
            &&& row.git_ahead == g.ahead as i64
            &&& row.git_behind == g.behind as i64
            &&& match g.last_commit {
                Some(c) => {
                    &&& row.git_last_hash == Some(c.hash)
                    &&& row.git_last_msg == Some(c.message)
                    &&& row.git_last_author == Some(c.author)
                    &&& row.git_last_date matches Some(d) && d@ == spec_rfc3339(c.date.nanos)
                        && spec_parse_rfc3339(d@) == Some(c.date.nanos)
                },
                None => {
                    &&& row.git_last_hash is None
                    &&& row.git_last_msg is None
                    &&& row.git_last_author is None
                    &&& row.git_last_date is None
                },
            }
        },
        None => {
            &&& row.git_branch is None
            &&& row.git_dirty == 0
            &&& row.git_ahead == 0
            &&& row.git_behind == 0
            &&& row.git_last_hash is None
            &&& row.git_last_msg is None
            &&& row.git_last_author is None
            &&& row.git_last_date is None
        },
    }
}

/// The row written for a vobe.
pub fn vobe_to_row(v: &Vobe) -> (row: VobeRow)
    ensures
        row_encodes(row, *v),
{
    let (git_branch, git_dirty, git_ahead, git_behind, hash, msg, author, date) = match &v.git {
        Some(g) => {
            let (hash, msg, author, date) = match &g.last_commit {
                Some(c) => (
                    Some(c.hash.clone()),
                    Some(c.message.clone()),
                    Some(c.author.clone()),
                    Some(c.date.to_rfc3339()),
                ),
                None => (None, None, None, None),
            };
            (
                Some(g.branch.clone()),
                if g.dirty {
                    1i64
                } else {
                    0i64
                },
                g.ahead as i64,
                g.behind as i64,
                hash,
                msg,
                author,
                date,
            )
        },
        None => (None, 0i64, 0i64, 0i64, None, None, None, None),
    };
    VobeRow {
        id: v.id.0.clone(),
        name: v.name.clone(),
        path: normalize(v.path.as_str()),
        framework: copy_opt(&v.framework),
        language: copy_opt(&v.language),
        package_manager: copy_opt(&v.package_manager),
        created_at: v.created_at.to_rfc3339(),
        last_opened: opt_rfc3339(v.last_opened),
        last_modified: opt_rfc3339(v.last_modified),
        tags: tags_json(&v.tags),
        notes: copy_opt(&v.notes),
        pinned: if v.pinned {
            1i64
        } else {
            0i64
        },
        git_branch,
        git_dirty,
        git_ahead,
        git_behind,
        git_last_hash: hash,
        git_last_msg: msg,
        git_last_author: author,
        git_last_date: date,
    }
}

/// The last commit read back from a row: present when all four commit
/// columns are set, dated `now` when its date cannot be read.
pub open spec fn spec_row_commit(row: VobeRow, now: Timestamp) -> Option<Commit> {
    match (row.git_last_hash, row.git_last_msg, row.git_last_author, row.git_last_date) {
        (Some(hash), Some(message), Some(author), Some(date)) => Some(
            Commit {
                hash,
                message,
                author,
                date: match spec_parse_rfc3339(date@) {
                    Some(n) => Timestamp { nanos: n },
                    None => now,
                },
            },
        ),
        _ => None,
    }
}

/// The vobe read back from a row, with `now` standing in for a creation or
/// commit time that cannot be read.
pub open spec fn row_decodes(v: Vobe, row: VobeRow, now: Timestamp) -> bool {
    &&& v.id.0@ == row.id@
    &&& v.name@ == row.name@
    &&& v.path@ == spec_normalize(row.path@)
    &&& v.framework == row.framework
    &&& v.language == row.language
    &&& v.package_manager == row.package_manager
    &&& v.created_at == (match spec_parse_rfc3339(row.created_at@) {
        Some(n) => Timestamp { nanos: n },
        None => now,
    })
    &&& v.last_opened == spec_opt_instant(opt_chars(row.last_opened))
    &&& v.last_modified == spec_opt_instant(opt_chars(row.last_modified))
    &&& tag_views(v.tags@) == (match spec_parse_tags(row.tags@) {
        Some(t) => t,
        None => Seq::empty(),
    })
    &&& v.notes == row.notes
    &&& v.pinned == (row.pinned != 0)
    &&& v.git == (match row.git_branch {
        Some(b) => Some(
            GitInfo {
                branch: b,
                dirty: row.git_dirty != 0,
                ahead: spec_count(row.git_ahead),
                behind: spec_count(row.git_behind),
                last_commit: spec_row_commit(row, now),
            },
        ),
        None => None,
    })
}

/// A count column read back.
fn count_of(x: i64) -> (r: u32)
    ensures
        r == spec_count(x),
{
    if x < 0 {
        0
    } else {
        x as u32
    }
}

/// The vobe stored in a row; `now` stands in for a creation or commit time
/// that cannot be read.
pub fn vobe_from_row(row: &VobeRow, now: Timestamp) -> (v: Vobe)
    ensures
        row_decodes(v, *row, now),
{
    let last_commit = match (&row.git_last_hash, &row.git_last_msg, &row.git_last_author, &row.git_last_date) {
        (Some(hash), Some(message), Some(author), Some(date)) => Some(
            Commit {
                hash: hash.clone(),
                message: message.clone(),
                author: author.clone(),
                date: Timestamp::parse_rfc3339_or(date.as_str(), now),
            },
        ),
        _ => None,
    };
    let git = match &row.git_branch {
        Some(b) => Some(
            GitInfo {
                branch: b.clone(),
                dirty: row.git_dirty != 0,
                ahead: count_of(row.git_ahead),
                behind: count_of(row.git_behind),
                last_commit,
            },
        ),
        None => None,
    };
    let tags = match parse_tags(row.tags.as_str()) {
        Some(t) => t,
        None => {
            let t: Vec<String> = Vec::new();
            assert(tag_views(t@) =~= Seq::<Seq<char>>::empty());
            t
        },
    };
    Vobe {
        id: VobeId(row.id.clone()),
        name: row.name.clone(),
        path: normalize(row.path.as_str()),
        git,
        framework: copy_opt(&row.framework),
        language: copy_opt(&row.language),
        package_manager: copy_opt(&row.package_manager),
        created_at: Timestamp::parse_rfc3339_or(row.created_at.as_str(), now),
        last_opened: opt_instant(&row.last_opened),
        last_modified: opt_instant(&row.last_modified),
        tags,
        notes: copy_opt(&row.notes),
        pinned: row.pinned != 0,
    }
}

/// The values written for an event: its vobe, the kind's name, an RFC 3339
/// text that reads back as its instant, and its detail.
pub open spec fn insert_encodes(ins: ActivityInsert, e: ActivityEvent) -> bool {
    &&& ins.vobe_id@ == e.vobe_id.0@
    &&& ins.kind@ == spec_kind_name(e.kind)
    &&& spec_parse_rfc3339(ins.timestamp@) == Some(e.timestamp.nanos)
    &&& ins.detail == e.detail
}

/// The event read back from a row, `now` standing in for an unreadable
/// timestamp; the id is the row's, the actor the default one.
pub open spec fn activity_row_decodes(e: ActivityEvent, row: ActivityRow, now: Timestamp) -> bool {
    &&& e.id == Some(row.id as u64)
    &&& e.vobe_id.0@ == row.vobe_id@
    &&& e.kind == spec_kind_from_name(row.kind@)
    &&& e.timestamp == (match spec_parse_rfc3339(row.timestamp@) {
        Some(n) => Timestamp { nanos: n },
        None => now,
    })
    &&& e.detail == row.detail
    &&& e.actor@ == "human"@
}

/// The values written for a new activity event.
pub fn activity_to_insert(e: &ActivityEvent) -> (r: ActivityInsert)
    ensures
        insert_encodes(r, *e),
{
    ActivityInsert {
        vobe_id: e.vobe_id.0.clone(),
        kind: kind_to_str(e.kind),
        timestamp: e.timestamp.to_rfc3339(),
        detail: copy_opt(&e.detail),
    }
}

/// The event stored in an activity row; `now` stands in for a timestamp
/// that cannot be read. Rows carry no actor, so the default one is used.
pub fn activity_from_row(row: &ActivityRow, now: Timestamp) -> (e: ActivityEvent)
    ensures
        activity_row_decodes(e, *row, now),
{
    ActivityEvent {
        id: Some(row.id as u64),
        vobe_id: VobeId(row.vobe_id.clone()),
        kind: kind_from_str(row.kind.as_str()),
        timestamp: Timestamp::parse_rfc3339_or(row.timestamp.as_str(), now),
        detail: copy_opt(&row.detail),
        actor: default_actor(),
    }
}

/// Reading back the row written for a vobe gives the vobe again, with its
/// path in normal form; only the string values are compared by their text.
/// Paths whose normal form starts with a drive letter not followed by `/`
/// are left out: normalizing those once more changes them.
pub proof fn law_vobe_row_round_trip(v: Vobe, row: VobeRow, w: Vobe, now: Timestamp)
    requires
        row_encodes(row, v),
        row_decodes(w, row, now),
        has_drive(spec_normalize(v.path@)) ==> spec_normalize(v.path@).len() > 2
            && spec_normalize(v.path@)[2] == '/',
    ensures
        w.id.0@ == v.id.0@,
        w.name@ == v.name@,
        w.path@ == spec_normalize(v.path@),
        w.framework == v.framework,
        w.language == v.language,
        w.package_manager == v.package_manager,
        w.created_at == v.created_at,
        w.last_opened == v.last_opened,
        w.last_modified == v.last_modified,
        tag_views(w.tags@) == tag_views(v.tags@),
        w.notes == v.notes,
        w.pinned == v.pinned,
        w.git == v.git,
{
    law_normalize_idempotent(v.path@);
    match v.git {
        Some(g) => {
            assert(spec_count(g.ahead as i64) == g.ahead);
            assert(spec_count(g.behind as i64) == g.behind);
        },
        None => {},
    }
}

/// Reading back the values written for an event gives its vobe, kind,
/// instant and detail again.
pub proof fn law_activity_row_round_trip(
    e: ActivityEvent,
    ins: ActivityInsert,
    row: ActivityRow,
    back: ActivityEvent,
    now: Timestamp,
)
    requires
        insert_encodes(ins, e),
        row.vobe_id == ins.vobe_id,
        row.kind@ == ins.kind@,
        row.timestamp == ins.timestamp,
        row.detail == ins.detail,
        activity_row_decodes(back, row, now),
    ensures
        back.vobe_id.0@ == e.vobe_id.0@,
        back.kind == e.kind,
        back.timestamp == e.timestamp,
        back.detail == e.detail,
{
    law_kind_name_round_trip(e.kind);
}

} // verus!
