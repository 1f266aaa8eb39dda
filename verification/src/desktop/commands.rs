//! Decisions behind the desktop app's commands: tag and note edits,
//! pins, the README excerpt, context directories, saved searches and
//! snapshot files.

use vstd::prelude::*;

use crate::desktop::todos::{
    extension, relative_to, spec_extension, spec_lines, spec_relative_to, text_lines,
};
use crate::model::error::Error;
use crate::model::time::{spec_parse_rfc3339, Timestamp};
use crate::model::vobe::Vobe;
use crate::text::{
    chars_of, join_with, spec_join_with, str_eq, string_views, trim, trim_spec,
};

verus! {

broadcast use vstd::string::group_string_axioms;

/// The tags kept from an edit: each trimmed, empty ones dropped, in order.
pub open spec fn spec_clean_tags(tags: Seq<Seq<char>>) -> Seq<Seq<char>>
    decreases tags.len(),
{
    if tags.len() == 0 {
        tags
    } else if trim_spec(tags.last()).len() == 0 {
        spec_clean_tags(tags.drop_last())
    } else {
        spec_clean_tags(tags.drop_last()).push(trim_spec(tags.last()))
    }
}

/// The tags kept from an edit.
pub fn clean_tags(tags: &Vec<String>) -> (r: Vec<String>)
    ensures
        string_views(r@) == spec_clean_tags(string_views(tags@)),
{
    let mut out: Vec<String> = Vec::new();
    let mut i: usize = 0;
    while i < tags.len()
        invariant
            i <= tags@.len(),
            string_views(out@) == spec_clean_tags(string_views(tags@.take(i as int))),
        decreases tags@.len() - i,
    {
        proof {
            assert(string_views(tags@.take(i + 1)).drop_last() =~= string_views(tags@.take(i as int)));
            assert(string_views(tags@.take(i + 1)).last() == tags@[i as int]@);
        }
        let t = trim(tags[i].as_str());
        if chars_of(t.as_str()).len() > 0 {
            let ghost prev = string_views(out@);
            out.push(t);
            assert(string_views(out@) =~= prev.push(trim_spec(tags@[i as int]@)));
        }
        i = i + 1;
    }
    assert(tags@.take(tags@.len() as int) =~= tags@);
    out
}

/// Whether two tag lists hold the same texts in the same order.
pub fn same_tags(a: &Vec<String>, b: &Vec<String>) -> (r: bool)
    ensures
        r == (string_views(a@) == string_views(b@)),
{
    if a.len() != b.len() {
        proof {
            if string_views(a@) == string_views(b@) {
                assert(string_views(a@).len() == string_views(b@).len());
            }
        }
        return false;
    }
    let mut i: usize = 0;
    while i < a.len()
        invariant
            i <= a@.len(),
            a@.len() == b@.len(),
            forall|k: int| 0 <= k < i ==> a@[k]@ == b@[k]@,
        decreases a@.len() - i,
    {
        if !str_eq(a[i].as_str(), b[i].as_str()) {
            proof {
                if string_views(a@) == string_views(b@) {
                    assert(string_views(a@)[i as int] == string_views(b@)[i as int]);
                }
            }
            return false;
        }
        i = i + 1;
    }
    assert(string_views(a@) =~= string_views(b@));
    true
}

/// The notes kept from an edit: an empty text clears them.
pub fn clean_notes(notes: Option<String>) -> (r: Option<String>)
    ensures
        match notes {
            Some(n) => if n@.len() > 0 {
                r == Some(n)
            } else {
                r is None
            },
            None => r is None,
        },
{
    match notes {
        Some(n) => {
            if chars_of(n.as_str()).len() > 0 {
                Some(n)
            } else {
                None
            }
        },
        None => None,
    }
}

/// The names of the pinned vobes, in order.
pub open spec fn spec_pinned_names(vobes: Seq<Vobe>) -> Seq<Seq<char>>
    decreases vobes.len(),
{
    if vobes.len() == 0 {
        Seq::empty()
    } else if vobes.last().pinned {
        spec_pinned_names(vobes.drop_last()).push(vobes.last().name@)
    } else {
        spec_pinned_names(vobes.drop_last())
    }
}

/// The names of the pinned vobes, in order.
pub fn pinned_names(vobes: &[Vobe]) -> (r: Vec<String>)
    ensures
        string_views(r@) == spec_pinned_names(vobes@),
{
    let mut out: Vec<String> = Vec::new();
    let mut i: usize = 0;
    while i < vobes.len()
        invariant
            i <= vobes@.len(),
            string_views(out@) == spec_pinned_names(vobes@.take(i as int)),
        decreases vobes@.len() - i,
    {
        proof {
            assert(vobes@.take(i + 1).drop_last() =~= vobes@.take(i as int));
        }
        if vobes[i].pinned {
            let ghost prev = string_views(out@);
            out.push(vobes[i].name.clone());
            assert(string_views(out@) =~= prev.push(vobes@[i as int].name@));
        }
        i = i + 1;
    }
    assert(vobes@.take(vobes@.len() as int) =~= vobes@);
    out
}

/// README files looked for, in order.
pub const README_CANDIDATES: [&'static str; 5] = [
    "README.md",
    "README.markdown",
    "README",
    "readme.md",
    "Readme.md",
];

/// At most this many README lines are shown.
pub const README_LINES: usize = 120;

/// The README excerpt: its first 120 lines, joined by line feeds.
pub open spec fn spec_readme_head(text: Seq<char>) -> Seq<char> {
    let ls = spec_lines(text);
    spec_join_with(
        if ls.len() <= 120 {
            ls
        } else {
            ls.take(120)
        },
        "\n"@,
    )
}

/// The README excerpt of a text.
pub fn readme_head(text: &str) -> (r: String)
    ensures
        r@ == spec_readme_head(text@),
{
    let lines = text_lines(text);
    let mut head: Vec<String> = Vec::new();
    let mut i: usize = 0;
    let n: usize = if lines.len() <= README_LINES {
        lines.len()
    } else {
        README_LINES
    };
    while i < n
        invariant
            i <= n <= lines@.len(),
            head@ == lines@.take(i as int),
        decreases n - i,
    {
        head.push(lines[i].clone());
        i = i + 1;
        assert(head@ =~= lines@.take(i as int));
    }
    proof {
        let ls = spec_lines(text@);
        assert(string_views(head@) =~= (if ls.len() <= 120 {
            ls
        } else {
            ls.take(120)
        }));
    }
    join_with(&head, "\n")
}

/// At most this many directory entries go into a context pack.
pub const CONTEXT_ENTRIES: usize = 50;

/// The directory part of a context pack: the first 50 entries, each
/// relative to the project.
pub open spec fn spec_context_directory(root: Seq<char>, entries: Seq<Seq<char>>) -> Seq<Seq<char>> {
    let kept = if entries.len() <= 50 {
        entries
    } else {
        entries.take(50)
    };
    kept.map_values(|e: Seq<char>| spec_relative_to(root, e))
}

/// The directory part of a context pack, from the project's entries (full
/// paths, in the order read).
pub fn context_directory(root: &str, entries: &Vec<String>) -> (r: Vec<String>)
    ensures
        string_views(r@) == spec_context_directory(root@, string_views(entries@)),
{
    let n: usize = if entries.len() <= CONTEXT_ENTRIES {
        entries.len()
    } else {
        CONTEXT_ENTRIES
    };
    let mut out: Vec<String> = Vec::new();
    let mut i: usize = 0;
    while i < n
        invariant
            i <= n <= entries@.len(),
            string_views(out@) == string_views(entries@).take(i as int).map_values(
                |e: Seq<char>| spec_relative_to(root@, e),
            ),
        decreases n - i,
    {
        let ghost prev = string_views(out@);
        out.push(relative_to(root, entries[i].as_str()));
        assert(string_views(out@) =~= prev.push(spec_relative_to(root@, entries@[i as int]@)));
        assert(string_views(entries@).take(i + 1).map_values(
            |e: Seq<char>| spec_relative_to(root@, e),
        ) =~= string_views(entries@).take(i as int).map_values(
            |e: Seq<char>| spec_relative_to(root@, e),
        ).push(spec_relative_to(root@, entries@[i as int]@)));
        i = i + 1;
    }
    proof {
        let es = string_views(entries@);
        if es.len() <= 50 {
            assert(es.take(es.len() as int) =~= es);
        }
    }
    out
}

/// When a saved search was created: the given RFC 3339 time when it reads,
/// else `now`.
pub fn saved_filter_created_at(given: &Option<String>, now: Timestamp) -> (r: Timestamp)
    ensures
        r == (match given {
            Some(s) => match spec_parse_rfc3339(s@) {
                Some(n) => Timestamp { nanos: n },
                None => now,
            },
            None => now,
        }),
{
    match given {
        Some(s) => Timestamp::parse_rfc3339_or(s.as_str(), now),
        None => now,
    }
}

/// Whether a file is a snapshot: its extension is `json`.
pub fn is_snapshot_file(name: &str) -> (r: bool)
    ensures
        r == (spec_extension(name@) == Some("json"@)),
{
    match extension(name) {
        Some(e) => str_eq(e.as_str(), "json"),
        None => false,
    }
}

/// The error every operation gives when no store could be opened.
pub fn storage_unavailable() -> (e: Error)
    ensures
        e matches Error::Storage(m) && m@ == "storage unavailable — database failed to initialize"@,
{
    Error::storage(String::from_str("storage unavailable — database failed to initialize"))
}

/// The paths the file watcher watches: those of the vobes whose path
/// exists, in order.
pub open spec fn spec_watch_targets(vobes: Seq<Vobe>, exists: Seq<bool>) -> Seq<Seq<char>>
    decreases vobes.len(),
{
    if vobes.len() == 0 {
        Seq::empty()
    } else if exists[vobes.len() - 1] {
        spec_watch_targets(vobes.drop_last(), exists).push(vobes.last().path@)
    } else {
        spec_watch_targets(vobes.drop_last(), exists)
    }
}

/// The paths the file watcher watches, given whether each vobe's path
/// exists.
pub fn watch_targets(vobes: &[Vobe], exists: &[bool]) -> (r: Vec<String>)
    requires
        exists@.len() == vobes@.len(),
    ensures
        string_views(r@) == spec_watch_targets(vobes@, exists@),
{
    let mut out: Vec<String> = Vec::new();
    let mut i: usize = 0;
    while i < vobes.len()
        invariant
            i <= vobes@.len(),
            exists@.len() == vobes@.len(),
            string_views(out@) == spec_watch_targets(vobes@.take(i as int), exists@),
        decreases vobes@.len() - i,
    {
        proof {
            assert(vobes@.take(i + 1).drop_last() =~= vobes@.take(i as int));
        }
        if exists[i] {
            let ghost prev = string_views(out@);
            out.push(vobes[i].path.clone());
            assert(string_views(out@) =~= prev.push(vobes@[i as int].path@));
        }
        i = i + 1;
    }
    assert(vobes@.take(vobes@.len() as int) =~= vobes@);
    out
}

/// Cleaning cleaned tags changes nothing: an edit that only resubmits
/// the stored tags is no change.
pub proof fn law_clean_tags_idempotent(tags: Seq<Seq<char>>)
    ensures
        spec_clean_tags(spec_clean_tags(tags)) == spec_clean_tags(tags),
    decreases tags.len(),
{
    if tags.len() > 0 {
        law_clean_tags_idempotent(tags.drop_last());
        let prev = spec_clean_tags(tags.drop_last());
        let t = trim_spec(tags.last());
        if t.len() > 0 {
            crate::text::law_trim_idempotent(tags.last());
            assert(prev.push(t).drop_last() =~= prev);
        }
    }
}

} // verus!
