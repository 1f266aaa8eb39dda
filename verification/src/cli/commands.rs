//! The command line's commands and the decisions they make.

use vstd::prelude::*;

use crate::config::{join_path, spec_join};
use crate::model::activity::ActivityEvent;
use crate::model::error::{id_for_clock, VobeId};
use crate::model::git::GitInfo;
use crate::model::time::Timestamp;
use crate::model::vobe::Vobe;
use crate::path::{normalize, spec_normalize};
use crate::scan::detection::Detection;
use crate::text::{chars_of, concat, str_eq, string_of, trim, trim_spec};
use crate::text::copy_opt;

verus! {

broadcast use vstd::string::group_string_axioms;

/// Every command of `vbs`.
#[derive(Clone, Debug, PartialEq, Eq)]
pub enum Command {
    /// Discover projects in the configured roots.
    Scan,
    /// List every tracked vobe.
    List {
        /// Print JSON instead of a table.
        json: bool,
    },
    /// Show one vobe in detail.
    Show {
        /// Vobe name or path.
        name: String,
        /// Print JSON instead of the detail view.
        json: bool,
    },
    /// Show the activity timeline.
    Log {
        /// How many events (20 unless given).
        limit: usize,
        /// Print JSON instead of a table.
        json: bool,
    },
    /// Print a context pack (vobe, recent activity, entries) as JSON.
    Context {
        /// Vobe name or path.
        name: String,
    },
    /// Stream new activity as JSON lines.
    Watch,
    /// Re-scan, refresh git state, record activity.
    Sync,
    /// Track the project at a path.
    Add {
        /// Absolute or relative path.
        path: String,
    },
    /// Stop tracking a vobe.
    Rm {
        /// Vobe name.
        name: String,
    },
    /// Record an opening and launch the editor.
    Open {
        /// Vobe name.
        name: String,
    },
    /// Export everything as JSON.
    Export {
        /// Output path (the snapshots directory unless given).
        out: Option<String>,
    },
    /// Write a starter configuration file.
    Init,
}

/// The parsed command line: a command, or none (then usage is printed).
#[derive(Clone, Debug, PartialEq, Eq)]
pub struct Cli {
    /// The command to run.
    pub command: Option<Command>,
}

/// Whether a path is absolute (starts at the root).
pub open spec fn is_absolute(p: Seq<char>) -> bool {
    p.len() > 0 && p[0] == '/'
}

/// A path made absolute against the working directory, then normalized.
pub open spec fn spec_absolute_normalized(path: Seq<char>, cwd: Seq<char>) -> Seq<char> {
    spec_normalize(
        if is_absolute(path) {
            path
        } else {
            spec_join(cwd, path)
        },
    )
}

/// A path made absolute against the working directory `cwd`, then
/// normalized.
pub fn absolute_normalized(path: &str, cwd: &str) -> (r: String)
    ensures
        r@ == spec_absolute_normalized(path@, cwd@),
{
    let v = chars_of(path);
    if v.len() > 0 && v[0] == '/' {
        normalize(path)
    } else {
        normalize(join_path(cwd, path).as_str())
    }
}

/// What follows the last `/` of a path (all of it when there is none).
pub open spec fn last_segment(p: Seq<char>) -> Seq<char>
    decreases p.len(),
{
    if p.len() == 0 || p.last() == '/' {
        Seq::empty()
    } else {
        last_segment(p.drop_last()).push(p.last())
    }
}

/// The final name of a path: its last segment, unless that is empty, `.`
/// or `..`.
pub open spec fn spec_file_name(p: Seq<char>) -> Option<Seq<char>> {
    let s = last_segment(p);
    if s.len() == 0 || s == seq!['.'] || s == seq!['.', '.'] {
        None
    } else {
        Some(s)
    }
}

/// The characters after the last `/`.
fn last_segment_of(v: &Vec<char>) -> (r: Vec<char>)
    ensures
        r@ == last_segment(v@),
{
    let mut start: usize = v.len();
    assert(v@.take(v@.len() as int) =~= v@);
    assert(v@.subrange(v@.len() as int, v@.len() as int) =~= Seq::<char>::empty());
    assert(last_segment(v@) =~= last_segment(v@.take(start as int)) + v@.subrange(
        start as int,
        v@.len() as int,
    ));
    while start > 0 && v[start - 1] != '/'
        invariant
            start <= v@.len(),
            last_segment(v@) == last_segment(v@.take(start as int)) + v@.subrange(
                start as int,
                v@.len() as int,
            ),
        decreases start,
    {
        proof {
            let t = v@.take(start as int);
            assert(t.drop_last() =~= v@.take(start - 1));
            assert(last_segment(t) == last_segment(t.drop_last()).push(t.last()));
            assert(last_segment(v@.take(start - 1)) + v@.subrange(start - 1, v@.len() as int)
                =~= last_segment(t) + v@.subrange(start as int, v@.len() as int));
        }
        start = start - 1;
    }
    assert(last_segment(v@.take(start as int)) =~= Seq::<char>::empty());
    let mut out: Vec<char> = Vec::new();
    let mut i: usize = start;
    while i < v.len()
        invariant
            start <= i <= v@.len(),
            out@ == v@.subrange(start as int, i as int),
        decreases v@.len() - i,
    {
        out.push(v[i]);
        i = i + 1;
        assert(out@ =~= v@.subrange(start as int, i as int));
    }
    out
}

/// The final name of a path, if it has one.
pub fn file_name(path: &str) -> (r: Option<String>)
    ensures
        match r {
            Some(s) => spec_file_name(path@) == Some(s@),
            None => spec_file_name(path@) is None,
        },
{
    let v = chars_of(path);
    let s = last_segment_of(&v);
    if s.len() == 0 || (s.len() == 1 && s[0] == '.') || (s.len() == 2 && s[0] == '.' && s[1]
        == '.') {
        proof {
            if s.len() == 1 {
                assert(s@ =~= seq!['.']);
            }
            if s.len() == 2 {
                assert(s@ =~= seq!['.', '.']);
            }
        }
        None
    } else {
        proof {
            if s@ == seq!['.'] {
                assert(s@.len() == 1);
            }
            if s@ == seq!['.', '.'] {
                assert(s@.len() == 2);
            }
        }
        Some(string_of(&s))
    }
}

/// The vobe a scan finds at `path` (made absolute against `cwd`): named
/// after the path's final name (`project` when it has none), created and
/// modified at `now` with the id of that instant, with the detection's
/// framework, language and package manager, and with `git` as its git
/// state when the detection found a repository.
pub open spec fn found_vobe(
    v: Vobe,
    path: Seq<char>,
    cwd: Seq<char>,
    d: Detection,
    git: Option<GitInfo>,
    now: Timestamp,
) -> bool {
    let p = spec_absolute_normalized(path, cwd);
    &&& v.id.0@ == id_for_clock(now.nanos)
    &&& v.name@ == (match spec_file_name(p) {
        Some(n) => n,
        None => "project"@,
    })
    &&& v.path@ == p
    &&& v.framework == d.framework
    &&& v.language == d.language
    &&& v.package_manager == d.package_manager
    &&& v.created_at == now
    &&& v.last_opened is None
    &&& v.last_modified == Some(now)
    &&& v.tags@.len() == 0
    &&& v.notes is None
    &&& !v.pinned
    &&& v.git == (if d.is_repo {
        git
    } else {
        None
    })
}

/// The vobe a scan finds at `path`, given what the detectors reported and
/// the repository's git state (read only when the detection found one).
pub fn vobe_from_detection(
    path: &str,
    cwd: &str,
    detection: &Detection,
    git: Option<GitInfo>,
    now: Timestamp,
) -> (v: Vobe)
    ensures
        found_vobe(v, path@, cwd@, *detection, git, now),
{
    let p = absolute_normalized(path, cwd);
    let name = match file_name(p.as_str()) {
        Some(n) => n,
        None => String::from_str("project"),
    };
    let mut v = Vobe::created(VobeId::from_clock(now), name.as_str(), p.as_str(), now);
    v.framework = copy_opt(&detection.framework);
    v.language = copy_opt(&detection.language);
    v.package_manager = copy_opt(&detection.package_manager);
    v.last_modified = Some(now);
    if detection.is_repo {
        v.git = git;
    }
    v
}

/// A rescanned vobe that was already tracked keeps its identity and what
/// the user set: id, creation time, tags, notes and last opening (and its
/// pin, when `keep_pinned`); everything else comes from the rescan, and it
/// is marked modified at `now`.
pub open spec fn spec_carry_over(fresh: Vobe, prev: Vobe, keep_pinned: bool, now: Timestamp) -> Vobe {
    Vobe {
        id: prev.id,
        created_at: prev.created_at,
        tags: prev.tags,
        notes: prev.notes,
        pinned: if keep_pinned {
            prev.pinned
        } else {
            fresh.pinned
        },
        last_opened: prev.last_opened,
        last_modified: Some(now),
        ..fresh
    }
}

/// Merge a rescanned vobe with the tracked one it replaces.
pub fn carry_over(fresh: Vobe, prev: Vobe, keep_pinned: bool, now: Timestamp) -> (v: Vobe)
    ensures
        v == spec_carry_over(fresh, prev, keep_pinned, now),
{
    let pinned = if keep_pinned {
        prev.pinned
    } else {
        fresh.pinned
    };
    Vobe {
        id: prev.id,
        created_at: prev.created_at,
        tags: prev.tags,
        notes: prev.notes,
        pinned,
        last_opened: prev.last_opened,
        last_modified: Some(now),
        ..fresh
    }
}

/// What a sync does with one project it found: when the path is already
/// tracked, the merged vobe and `false` (an update, recorded without a
/// new event); otherwise the found vobe and `true` (an addition, which
/// gets a `Scanned` event).
pub fn sync_step(fresh: Vobe, existing: Option<Vobe>, keep_pinned: bool, now: Timestamp) -> (r: (
    Vobe,
    bool,
))
    ensures
        match existing {
            Some(prev) => r == (spec_carry_over(fresh, prev, keep_pinned, now), false),
            None => r == (fresh, true),
        },
{
    match existing {
        Some(prev) => (carry_over(fresh, prev, keep_pinned, now), false),
        None => (fresh, true),
    }
}

/// A rescan never changes a tracked vobe's identity or what the user set
/// on it, and it keeps what the rescan found.
pub proof fn law_rescan_keeps_identity(fresh: Vobe, prev: Vobe, keep_pinned: bool, now: Timestamp)
    ensures
        spec_carry_over(fresh, prev, keep_pinned, now).id == prev.id,
        spec_carry_over(fresh, prev, keep_pinned, now).created_at == prev.created_at,
        spec_carry_over(fresh, prev, keep_pinned, now).tags == prev.tags,
        spec_carry_over(fresh, prev, keep_pinned, now).notes == prev.notes,
        spec_carry_over(fresh, prev, keep_pinned, now).last_opened == prev.last_opened,
        keep_pinned ==> spec_carry_over(fresh, prev, keep_pinned, now).pinned == prev.pinned,
        spec_carry_over(fresh, prev, keep_pinned, now).path == fresh.path,
        spec_carry_over(fresh, prev, keep_pinned, now).git == fresh.git,
        spec_carry_over(fresh, prev, keep_pinned, now).framework == fresh.framework,
        spec_carry_over(fresh, prev, keep_pinned, now).language == fresh.language,
        spec_carry_over(fresh, prev, keep_pinned, now).package_manager == fresh.package_manager,
        spec_carry_over(spec_carry_over(fresh, prev, keep_pinned, now), prev, keep_pinned, now)
            == spec_carry_over(fresh, prev, keep_pinned, now),
{
}

/// The events a watcher prints from one poll, in the order given, and the
/// highest id seen afterwards: an event is printed when it has an id above
/// the highest seen so far, which then becomes that id.
pub open spec fn watch_fold(events: Seq<ActivityEvent>, last: u64) -> (Seq<ActivityEvent>, u64)
    decreases events.len(),
{
    if events.len() == 0 {
        (Seq::empty(), last)
    } else {
        let (out, l) = watch_fold(events.drop_last(), last);
        let e = events.last();
        match e.id {
            Some(i) => if i > l {
                (out.push(e), i)
            } else {
                (out, l)
            },
            None => (out, l),
        }
    }
}

/// One poll of the activity watcher: the events to print and the new
/// highest id.
pub fn watch_step(last_id: u64, events: &[ActivityEvent]) -> (r: (Vec<ActivityEvent>, u64))
    ensures
        (r.0@, r.1) == watch_fold(events@, last_id),
{
    let mut out: Vec<ActivityEvent> = Vec::new();
    let mut last = last_id;
    let mut k: usize = 0;
    while k < events.len()
        invariant
            k <= events@.len(),
            (out@, last) == watch_fold(events@.take(k as int), last_id),
        decreases events@.len() - k,
    {
        proof {
            assert(events@.take(k + 1).drop_last() =~= events@.take(k as int));
        }
        match events[k].id {
            Some(i) => {
                if i > last {
                    last = i;
                    out.push(events[k].copied());
                }
            },
            None => {},
        }
        k = k + 1;
    }
    assert(events@.take(events@.len() as int) =~= events@);
    (out, last)
}

/// A watcher never goes back: the highest id seen only grows, every event
/// it prints has an id above the one it started from, and the ids it
/// prints strictly increase, so no event is printed twice.
pub proof fn law_watch_moves_forward(events: Seq<ActivityEvent>, last: u64)
    ensures
        watch_fold(events, last).1 >= last,
        forall|i: int|
            0 <= i < watch_fold(events, last).0.len() ==> ((#[trigger] watch_fold(events, last).0[i]).id
                matches Some(x) && x > last && x <= watch_fold(events, last).1),
        forall|i: int, j: int|
            0 <= i < j < watch_fold(events, last).0.len() ==> (#[trigger] watch_fold(events, last).0[i]).id->0
                < (#[trigger] watch_fold(events, last).0[j]).id->0,
        watch_fold(events, last).0.len() > 0 ==> watch_fold(events, last).0.last().id == Some(
            watch_fold(events, last).1,
        ),
    decreases events.len(),
{
    if events.len() > 0 {
        law_watch_moves_forward(events.drop_last(), last);
        let (out, l) = watch_fold(events.drop_last(), last);
        let e = events.last();
        match e.id {
            Some(x) => {
                if x > l {
                    let now = out.push(e);
                    assert forall|i: int| 0 <= i < now.len() implies ((#[trigger] now[i]).id matches Some(
                        y,
                    ) && y > last && y <= x) by {
                        if i < out.len() {
                            assert(now[i] == out[i]);
                        }
                    }
                    assert forall|i: int, j: int| 0 <= i < j < now.len() implies (#[trigger] now[i]).id->0
                        < (#[trigger] now[j]).id->0 by {
                        assert(now[i] == out[i]);
                        if j < out.len() {
                            assert(now[j] == out[j]);
                        }
                    }
                }
            },
            None => {},
        }
    }
}

/// The id a watcher starts from: that of the first event that has one, or
/// zero.
pub open spec fn first_id(events: Seq<ActivityEvent>) -> u64
    decreases events.len(),
{
    if events.len() == 0 {
        0
    } else {
        match events[0].id {
            Some(i) => i,
            None => first_id(events.drop_first()),
        }
    }
}

/// The id a watcher starts from.
pub fn watch_start(events: &[ActivityEvent]) -> (r: u64)
    ensures
        r == first_id(events@),
{
    let mut k: usize = 0;
    assert(events@.subrange(0, events@.len() as int) =~= events@);
    while k < events.len()
        invariant
            k <= events@.len(),
            first_id(events@) == first_id(events@.subrange(k as int, events@.len() as int)),
        decreases events@.len() - k,
    {
        proof {
            let rest = events@.subrange(k as int, events@.len() as int);
            assert(rest.drop_first() =~= events@.subrange(k + 1, events@.len() as int));
        }
        match events[k].id {
            Some(i) => {
                return i;
            },
            None => {},
        }
        k = k + 1;
    }
    0
}

/// Whether the answer to the reset prompt confirms it: `yes`, ignoring
/// surrounding whitespace.
pub fn reset_confirmed(input: &str) -> (r: bool)
    ensures
        r == (trim_spec(input@) == "yes"@),
{
    let t = trim(input);
    str_eq(t.as_str(), "yes")
}

/// The timestamp chrono writes for an instant with the pattern
/// `%Y-%m-%d-%H%M%S` (in UTC).
pub uninterp spec fn spec_snapshot_stamp(nanos: i64) -> Seq<char>;

/// Calls chrono's `format("%Y-%m-%d-%H%M%S")` on the instant; the text is
/// the named stamp of the argument.
#[verifier::external_body]
fn snapshot_stamp(nanos: i64) -> (r: String)
    ensures
        r@ == spec_snapshot_stamp(nanos),
{
    chrono::DateTime::from_timestamp_nanos(nanos).format("%Y-%m-%d-%H%M%S").to_string()
}

/// Where an export goes when no path is given: `vobes-<stamp>.json` in the
/// snapshots directory, or in `.` when there is none.
pub open spec fn spec_default_export_path(snapshots: Option<Seq<char>>, now: Timestamp) -> Seq<char> {
    spec_join(
        match snapshots {
            Some(d) => d,
            None => "."@,
        },
        "vobes-"@ + spec_snapshot_stamp(now.nanos) + ".json"@,
    )
}

/// Where an export goes when no path is given.
pub fn default_export_path(snapshots: Option<String>, now: Timestamp) -> (r: String)
    ensures
        r@ == spec_default_export_path(
            match snapshots {
                Some(s) => Some(s@),
                None => None,
            },
            now,
        ),
{
    let base = match snapshots {
        Some(d) => d,
        None => String::from_str("."),
    };
    let name = concat(&concat("vobes-", snapshot_stamp(now.nanos).as_str()), ".json");
    join_path(base.as_str(), name.as_str())
}

/// Where an export goes: the given path made absolute against `cwd`, or
/// the default place.
pub fn export_path(out: Option<String>, cwd: &str, snapshots: Option<String>, now: Timestamp) -> (r:
    String)
    ensures
        r@ == (match out {
            Some(p) => if is_absolute(p@) {
                p@
            } else {
                spec_join(cwd@, p@)
            },
            None => spec_default_export_path(
                match snapshots {
                    Some(s) => Some(s@),
                    None => None,
                },
                now,
            ),
        }),
{
    match out {
        Some(p) => {
            let v = chars_of(p.as_str());
            if v.len() > 0 && v[0] == '/' {
                p
            } else {
                join_path(cwd, p.as_str())
            }
        },
        None => default_export_path(snapshots, now),
    }
}

} // verus!
