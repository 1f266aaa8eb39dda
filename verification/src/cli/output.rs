//! What the command line prints: relative times, status words, table
//! rows and the detail view of a vobe.

use vstd::prelude::*;

use crate::model::activity::ActivityEvent;
use crate::model::git::{first_chars, spec_short_message};
use crate::model::time::Timestamp;
use crate::model::vobe::{tag_views, Vobe, ARCHIVED_TAG};
use crate::text::{concat, decimal, decimal_string, join_with, spec_join_with, string_views};

verus! {

broadcast use vstd::string::group_string_axioms;

/// How long ago something happened, from the nanoseconds elapsed: under a
/// minute (or in the future) is "just now"; otherwise whole minutes,
/// hours, days, 30-day months or 12-month years, each only while it is
/// below the next unit.
pub open spec fn spec_relative(elapsed: int) -> Seq<char> {
    if elapsed < 60_000_000_000 {
        "just now"@
    } else {
        let secs = elapsed / 1_000_000_000;
        let mins = secs / 60;
        if mins < 60 {
            decimal(mins as nat) + "m ago"@
        } else {
            let hours = mins / 60;
            if hours < 24 {
                decimal(hours as nat) + "h ago"@
            } else {
                let days = hours / 24;
                if days < 30 {
                    decimal(days as nat) + "d ago"@
                } else {
                    let months = days / 30;
                    if months < 12 {
                        decimal(months as nat) + "mo ago"@
                    } else {
                        decimal((months / 12) as nat) + "y ago"@
                    }
                }
            }
        }
    }
}

/// How long before `now` the instant `ts` was, in words.
pub fn relative_between(now: Timestamp, ts: Timestamp) -> (r: String)
    ensures
        r@ == spec_relative(now.nanos - ts.nanos),
{
    let elapsed: i128 = now.nanos as i128 - ts.nanos as i128;
    if elapsed < 60_000_000_000 {
        return String::from_str("just now");
    }
    let secs: u64 = (elapsed / 1_000_000_000) as u64;
    let mins: u64 = secs / 60;
    if mins < 60 {
        return concat(decimal_string(mins).as_str(), "m ago");
    }
    let hours: u64 = mins / 60;
    if hours < 24 {
        return concat(decimal_string(hours).as_str(), "h ago");
    }
    let days: u64 = hours / 24;
    if days < 30 {
        return concat(decimal_string(days).as_str(), "d ago");
    }
    let months: u64 = days / 30;
    if months < 12 {
        return concat(decimal_string(months).as_str(), "mo ago");
    }
    concat(decimal_string(months / 12).as_str(), "y ago")
}

/// How long ago `ts` was, measured against the current clock.
pub fn relative(ts: Timestamp) -> (r: String)
    ensures
        exists|now: Timestamp| r@ == spec_relative(now.nanos - ts.nanos),
{
    let now = Timestamp::now();
    relative_between(now, ts)
}

/// The words of a vobe's status: `dirty`, `↑<ahead>`, `↓<behind>`,
/// `archived`, each when it applies, in that order.
pub open spec fn status_parts(v: Vobe) -> Seq<Seq<char>> {
    (if v.git matches Some(g) && g.dirty {
        seq!["dirty"@]
    } else {
        Seq::empty()
    }) + (if v.git matches Some(g) && g.ahead > 0 {
        seq![seq!['↑'] + decimal(v.git->0.ahead as nat)]
    } else {
        Seq::empty()
    }) + (if v.git matches Some(g) && g.behind > 0 {
        seq![seq!['↓'] + decimal(v.git->0.behind as nat)]
    } else {
        Seq::empty()
    }) + (if v.spec_has_tag(ARCHIVED_TAG@) {
        seq!["archived"@]
    } else {
        Seq::empty()
    })
}

/// A vobe's status: its status words joined by spaces, or `clean`.
pub open spec fn spec_vobe_status(v: Vobe) -> Seq<char> {
    if status_parts(v).len() == 0 {
        "clean"@
    } else {
        spec_join_with(status_parts(v), " "@)
    }
}

/// A vobe's status as shown in listings.
pub fn vobe_status(v: &Vobe) -> (r: String)
    ensures
        r@ == spec_vobe_status(*v),
{
    let mut bits: Vec<String> = Vec::new();
    if v.is_dirty() {
        bits.push(String::from_str("dirty"));
    }
    assert(string_views(bits@) =~= (if v.git matches Some(g) && g.dirty {
        seq!["dirty"@]
    } else {
        Seq::<Seq<char>>::empty()
    }));
    let ghost a = string_views(bits@);
    if v.has_unpushed() {
        let n = match &v.git {
            Some(g) => g.ahead,
            None => 0,
        };
        let mut arrow = String::new();
        arrow.push('↑');
        bits.push(concat(arrow.as_str(), decimal_string(n as u64).as_str()));
    }
    assert(string_views(bits@) =~= a + (if v.git matches Some(g) && g.ahead > 0 {
        seq![seq!['↑'] + decimal(v.git->0.ahead as nat)]
    } else {
        Seq::<Seq<char>>::empty()
    }));
    let ghost b = string_views(bits@);
    if v.has_unpulled() {
        let n = match &v.git {
            Some(g) => g.behind,
            None => 0,
        };
        let mut arrow = String::new();
        arrow.push('↓');
        bits.push(concat(arrow.as_str(), decimal_string(n as u64).as_str()));
    }
    assert(string_views(bits@) =~= b + (if v.git matches Some(g) && g.behind > 0 {
        seq![seq!['↓'] + decimal(v.git->0.behind as nat)]
    } else {
        Seq::<Seq<char>>::empty()
    }));
    let ghost c = string_views(bits@);
    if v.is_archived() {
        bits.push(String::from_str("archived"));
    }
    assert(string_views(bits@) =~= c + (if v.spec_has_tag(ARCHIVED_TAG@) {
        seq!["archived"@]
    } else {
        Seq::<Seq<char>>::empty()
    }));
    assert(string_views(bits@) =~= status_parts(*v));
    if bits.len() == 0 {
        String::from_str("clean")
    } else {
        join_with(&bits, " ")
    }
}

/// The text of an optional string, or `-` when absent.
pub open spec fn or_dash(o: Option<Seq<char>>) -> Seq<char> {
    match o {
        Some(s) => s,
        None => "-"@,
    }
}

/// The characters of an optional string.
pub open spec fn opt_text(o: Option<String>) -> Option<Seq<char>> {
    match o {
        Some(s) => Some(s@),
        None => None,
    }
}

/// An optional string, or `-`.
fn text_or_dash(o: &Option<String>) -> (r: String)
    ensures
        r@ == or_dash(opt_text(*o)),
{
    match o {
        Some(s) => s.clone(),
        None => String::from_str("-"),
    }
}

/// The column titles of the vobe table.
pub const VOBE_TABLE_HEADER: [&'static str; 6] = ["Name", "Lang", "PM", "Branch", "Status", "Modified"];

/// The row of a vobe in the listing table: name, language, package
/// manager, branch, status and how long ago it was modified (`-` for
/// what is unknown).
pub open spec fn spec_vobe_row(v: Vobe, now: Timestamp) -> Seq<Seq<char>> {
    seq![
        v.name@,
        or_dash(opt_text(v.language)),
        or_dash(opt_text(v.package_manager)),
        match v.git {
            Some(g) => g.branch@,
            None => "-"@,
        },
        spec_vobe_status(v),
        match v.last_modified {
            Some(m) => spec_relative(now.nanos - m.nanos),
            None => "-"@,
        },
    ]
}

/// The row of a vobe in the listing table.
pub fn vobe_table_row(v: &Vobe, now: Timestamp) -> (r: Vec<String>)
    ensures
        string_views(r@) == spec_vobe_row(*v, now),
{
    let mut row: Vec<String> = Vec::new();
    row.push(v.name.clone());
    row.push(text_or_dash(&v.language));
    row.push(text_or_dash(&v.package_manager));
    row.push(
        match &v.git {
            Some(g) => g.branch.clone(),
            None => String::from_str("-"),
        },
    );
    row.push(vobe_status(v));
    row.push(
        match v.last_modified {
            Some(m) => relative_between(now, m),
            None => String::from_str("-"),
        },
    );
    assert(string_views(row@) =~= spec_vobe_row(*v, now));
    row
}

/// The column titles of the activity table.
pub const ACTIVITY_TABLE_HEADER: [&'static str; 4] = ["When", "Vobe", "Kind", "Detail"];

/// The row of an event in the activity table: when, the vobe's name (its
/// id when the name is unknown), the kind's label and the detail.
pub open spec fn spec_activity_row(e: ActivityEvent, name: Option<Seq<char>>, now: Timestamp) -> Seq<
    Seq<char>,
> {
    seq![
        spec_relative(now.nanos - e.timestamp.nanos),
        match name {
            Some(n) => n,
            None => e.vobe_id.0@,
        },
        e.kind.spec_label(),
        match e.detail {
            Some(d) => d@,
            None => Seq::empty(),
        },
    ]
}

/// The row of an event in the activity table.
pub fn activity_table_row(e: &ActivityEvent, name: Option<String>, now: Timestamp) -> (r: Vec<
    String,
>)
    ensures
        string_views(r@) == spec_activity_row(*e, opt_text(name), now),
{
    let mut row: Vec<String> = Vec::new();
    row.push(relative_between(now, e.timestamp));
    row.push(
        match name {
            Some(n) => n,
            None => e.vobe_id.0.clone(),
        },
    );
    row.push(e.kind.to_string());
    row.push(
        match &e.detail {
            Some(d) => d.clone(),
            None => String::new(),
        },
    );
    assert(string_views(row@) =~= spec_activity_row(*e, opt_text(name), now));
    row
}

/// One line when the condition holds, none otherwise.
pub open spec fn line_if(c: bool, line: Seq<char>) -> Seq<Seq<char>> {
    if c {
        seq![line]
    } else {
        Seq::empty()
    }
}

/// `true` or `false`.
pub open spec fn bool_text(b: bool) -> Seq<char> {
    if b {
        "true"@
    } else {
        "false"@
    }
}

/// The git part of the detail view.
pub open spec fn git_lines(v: Vobe, now: Timestamp) -> Seq<Seq<char>> {
    match v.git {
        Some(g) => seq!["  git:"@, "    branch: "@ + g.branch@, "    dirty:  "@ + bool_text(g.dirty)]
            + line_if(
            g.ahead > 0 || g.behind > 0,
            "    ahead/behind: ↑"@ + decimal(g.ahead as nat) + " ↓"@ + decimal(g.behind as nat),
        ) + match g.last_commit {
            Some(c) => seq![
                "    last:   "@ + first_chars(c.hash@, 7) + " "@ + spec_short_message(c.message@, 60),
                "            "@ + c.author@ + " ("@ + spec_relative(now.nanos - c.date.nanos) + ")"@,
            ],
            None => Seq::empty(),
        },
        None => Seq::empty(),
    }
}

/// The first lines of the detail view: name, path, id, then language,
/// framework and package manager when known.
pub open spec fn head_lines(v: Vobe) -> Seq<Seq<char>> {
    seq![v.name@, "  path:   "@ + v.path@, "  id:     "@ + v.id.0@] + match v.language {
        Some(l) => seq!["  lang:   "@ + l@],
        None => Seq::empty(),
    } + match v.framework {
        Some(f) => seq!["  fw:     "@ + f@],
        None => Seq::empty(),
    } + match v.package_manager {
        Some(p) => seq!["  pm:     "@ + p@],
        None => Seq::empty(),
    }
}

/// The tags line (when there are tags), the times, and the notes line.
pub open spec fn middle_lines(v: Vobe, now: Timestamp) -> Seq<Seq<char>> {
    line_if(v.tags@.len() > 0, "  tags:   "@ + spec_join_with(tag_views(v.tags@), ", "@))
        + seq!["  created: "@ + spec_relative(now.nanos - v.created_at.nanos)] + match v.last_opened {
        Some(o) => seq!["  opened:  "@ + spec_relative(now.nanos - o.nanos)],
        None => Seq::empty(),
    } + match v.last_modified {
        Some(m) => seq!["  modified: "@ + spec_relative(now.nanos - m.nanos)],
        None => Seq::empty(),
    } + match v.notes {
        Some(n) => seq!["  notes:   "@ + n@],
        None => Seq::empty(),
    }
}

/// The lines of the detail view of a vobe, measured against `now`.
pub open spec fn spec_detail_lines(v: Vobe, now: Timestamp) -> Seq<Seq<char>> {
    head_lines(v) + middle_lines(v, now) + git_lines(v, now)
}

/// `label` followed by `value`.
fn labelled(label: &str, value: &str) -> (r: String)
    ensures
        r@ == label@ + value@,
{
    concat(label, value)
}

/// The git lines of the detail view.
fn push_git_lines(lines: &mut Vec<String>, v: &Vobe, now: Timestamp)
    ensures
        string_views(final(lines)@) == string_views(old(lines)@) + git_lines(*v, now),
{
    let ghost start = string_views(lines@);
    match &v.git {
        Some(g) => {
            lines.push(String::from_str("  git:"));
            lines.push(labelled("    branch: ", g.branch.as_str()));
            lines.push(
                labelled(
                    "    dirty:  ",
                    if g.dirty {
                        "true"
                    } else {
                        "false"
                    },
                ),
            );
            let ghost base = string_views(lines@);
            if g.ahead > 0 || g.behind > 0 {
                let s = concat(
                    &concat(
                        &concat("    ahead/behind: ↑", decimal_string(g.ahead as u64).as_str()),
                        " ↓",
                    ),
                    decimal_string(g.behind as u64).as_str(),
                );
                lines.push(s);
            }
            let ghost mid = string_views(lines@);
            match &g.last_commit {
                Some(c) => {
                    let hash = c.short_hash();
                    let msg = c.short_message(60);
                    lines.push(concat(&concat(&concat("    last:   ", hash.as_str()), " "), msg.as_str()));
                    let when = relative_between(now, c.date);
                    lines.push(
                        concat(
                            &concat(&concat(&concat("            ", c.author.as_str()), " ("), when.as_str()),
                            ")",
                        ),
                    );
                },
                None => {},
            }
            assert(string_views(lines@) =~= start + git_lines(*v, now));
        },
        None => {
            assert(string_views(lines@) =~= start + git_lines(*v, now));
        },
    }
}

/// The first lines of the detail view.
fn push_head_lines(lines: &mut Vec<String>, v: &Vobe)
    ensures
        string_views(final(lines)@) == string_views(old(lines)@) + head_lines(*v),
{
    let ghost start = string_views(lines@);
    lines.push(v.name.clone());
    lines.push(labelled("  path:   ", v.path.as_str()));
    lines.push(labelled("  id:     ", v.id.0.as_str()));
    let ghost s0 = string_views(lines@);
    match &v.language {
        Some(l) => lines.push(labelled("  lang:   ", l.as_str())),
        None => {},
    }
    let ghost s1 = string_views(lines@);
    match &v.framework {
        Some(f) => lines.push(labelled("  fw:     ", f.as_str())),
        None => {},
    }
    let ghost s2 = string_views(lines@);
    match &v.package_manager {
        Some(p) => lines.push(labelled("  pm:     ", p.as_str())),
        None => {},
    }
    assert(string_views(lines@) =~= start + head_lines(*v));
}

/// The tags, times and notes lines of the detail view.
fn push_middle_lines(lines: &mut Vec<String>, v: &Vobe, now: Timestamp)
    ensures
        string_views(final(lines)@) == string_views(old(lines)@) + middle_lines(*v, now),
{
    let ghost start = string_views(lines@);
    if v.tags.len() > 0 {
        let joined = join_with(&v.tags, ", ");
        assert(string_views(v.tags@) =~= tag_views(v.tags@));
        lines.push(labelled("  tags:   ", joined.as_str()));
    }
    let ghost s4 = string_views(lines@);
    lines.push(labelled("  created: ", relative_between(now, v.created_at).as_str()));
    let ghost s5 = string_views(lines@);
    match v.last_opened {
        Some(o) => lines.push(labelled("  opened:  ", relative_between(now, o).as_str())),
        None => {},
    }
    let ghost s6 = string_views(lines@);
    match v.last_modified {
        Some(m) => lines.push(labelled("  modified: ", relative_between(now, m).as_str())),
        None => {},
    }
    let ghost s7 = string_views(lines@);
    match &v.notes {
        Some(n) => lines.push(labelled("  notes:   ", n.as_str())),
        None => {},
    }
    assert(string_views(lines@) =~= start + middle_lines(*v, now));
}

/// The lines of the detail view of a vobe, measured against `now`.
pub fn vobe_detail_lines(v: &Vobe, now: Timestamp) -> (r: Vec<String>)
    ensures
        string_views(r@) == spec_detail_lines(*v, now),
{
    let mut lines: Vec<String> = Vec::new();
    push_head_lines(&mut lines, v);
    push_middle_lines(&mut lines, v, now);
    push_git_lines(&mut lines, v, now);
    assert(string_views(lines@) =~= spec_detail_lines(*v, now));
    lines
}

} // verus!
