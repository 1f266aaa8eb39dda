//! Listing filters, sort orders, and the SQL that selects vobes.

use vstd::prelude::*;

use crate::model::error::VobeId;
use crate::model::time::{spec_rfc3339, Timestamp};
use crate::path::{normalize, spec_normalize};
use crate::text::concat;

verus! {

broadcast use vstd::string::group_string_axioms;

/// Filter applied when listing vobes.
#[derive(Clone, Debug, PartialEq, Eq)]
pub struct Filter {
    /// Only vobes with this tag.
    pub tag: Option<String>,
    /// Only vobes modified at or after this instant.
    pub modified_since: Option<Timestamp>,
    /// Only vobes with uncommitted changes.
    pub only_dirty: bool,
    /// Leave out vobes tagged `archived`.
    pub exclude_archived: bool,
}

impl Filter {
    /// The empty filter, which matches everything.
    pub fn all() -> (f: Filter)
        ensures
            f.tag is None,
            f.modified_since is None,
            !f.only_dirty,
            !f.exclude_archived,
    {
        Filter { tag: None, modified_since: None, only_dirty: false, exclude_archived: false }
    }

    /// Only vobes with this tag.
    pub fn with_tag(self, tag: &str) -> (f: Filter)
        ensures
            f.tag matches Some(t) && t@ == tag@,
            f.modified_since == self.modified_since,
            f.only_dirty == self.only_dirty,
            f.exclude_archived == self.exclude_archived,
    {
        Filter { tag: Some(tag.to_owned()), ..self }
    }

    /// Only vobes with uncommitted changes.
    pub fn only_dirty(self) -> (f: Filter)
        ensures
            f == (Filter { only_dirty: true, ..self }),
    {
        Filter { only_dirty: true, ..self }
    }

    /// Leave out archived vobes.
    pub fn exclude_archived(self) -> (f: Filter)
        ensures
            f == (Filter { exclude_archived: true, ..self }),
    {
        Filter { exclude_archived: true, ..self }
    }

    /// Only vobes modified at or after `since`.
    pub fn modified_since(self, since: Timestamp) -> (f: Filter)
        ensures
            f == (Filter { modified_since: Some(since), ..self }),
    {
        Filter { modified_since: Some(since), ..self }
    }
}

impl Default for Filter {
    /// The empty filter.
    fn default() -> (f: Filter)
        ensures
            f.tag is None,
            f.modified_since is None,
            !f.only_dirty,
            !f.exclude_archived,
    {
        Filter::all()
    }
}

/// Sort order for listing vobes.
#[derive(Clone, Copy, Debug, PartialEq, Eq, Structural)]
pub enum Sort {
    /// By name, ascending.
    Name,
    /// By creation time, newest first.
    CreatedAt,
    /// By last opened, newest first.
    LastOpened,
    /// By last modified, newest first.
    LastModified,
}

impl Default for Sort {
    /// Most recently modified first.
    fn default() -> (s: Sort)
        ensures
            s == Sort::LastModified,
    {
        Sort::LastModified
    }
}

/// The `ORDER BY` clause of each sort order: pinned vobes always come
/// first, then the order asked for.
pub open spec fn spec_order_by(sort: Sort) -> Seq<char> {
    match sort {
        Sort::Name => " ORDER BY pinned DESC, name ASC"@,
        Sort::CreatedAt => " ORDER BY pinned DESC, created_at DESC"@,
        Sort::LastOpened => " ORDER BY pinned DESC, last_opened DESC NULLS LAST"@,
        Sort::LastModified => " ORDER BY pinned DESC, last_modified DESC NULLS LAST"@,
    }
}

impl Sort {
    /// The `ORDER BY` clause of this order.
    pub fn order_by(self) -> (r: &'static str)
        ensures
            r@ == spec_order_by(self),
    {
        match self {
            Sort::Name => " ORDER BY pinned DESC, name ASC",
            Sort::CreatedAt => " ORDER BY pinned DESC, created_at DESC",
            Sort::LastOpened => " ORDER BY pinned DESC, last_opened DESC NULLS LAST",
            Sort::LastModified => " ORDER BY pinned DESC, last_modified DESC NULLS LAST",
        }
    }
}

/// A statement with its text arguments, bound to `?1`, `?2`, ... in order.
#[derive(Clone, Debug, PartialEq, Eq)]
pub struct Query {
    /// The SQL text.
    pub sql: String,
    /// The arguments.
    pub args: Vec<String>,
}

/// The texts of a list of strings.
pub open spec fn texts(v: Seq<String>) -> Seq<Seq<char>> {
    v.map_values(|s: String| s@)
}

/// Text if the condition holds, nothing otherwise.
pub open spec fn when(c: bool, s: Seq<char>) -> Seq<char> {
    if c {
        s
    } else {
        Seq::empty()
    }
}

/// The statement that lists vobes for a filter and sort order: each filter
/// part adds one condition, in the order tag, modification time, dirty,
/// archived, and the sort order closes it.
pub open spec fn spec_list_sql(f: Filter, sort: Sort) -> Seq<char> {
    "SELECT * FROM vobes WHERE 1=1"@ + when(f.tag is Some, " AND EXISTS (SELECT 1 FROM json_each(vobes.tags) WHERE json_each.value = ?1)"@) + when(
        f.modified_since is Some,
        " AND last_modified IS NOT NULL AND last_modified >= ?"@ + (if f.tag is Some {
            "2"@
        } else {
            "1"@
        }),
    ) + when(f.only_dirty, " AND git_dirty = 1"@) + when(
        f.exclude_archived,
        " AND NOT EXISTS (SELECT 1 FROM json_each(vobes.tags) WHERE json_each.value = 'archived')"@,
    ) + spec_order_by(sort)
}

/// The arguments of the listing statement: the tag (compared exactly with
/// each element of the stored JSON list), then the instant as RFC 3339,
/// each when the filter has it.
pub open spec fn spec_list_args(f: Filter) -> Seq<Seq<char>> {
    (match f.tag {
        Some(t) => seq![t@],
        None => Seq::empty(),
    }) + (match f.modified_since {
        Some(ts) => seq![spec_rfc3339(ts.nanos)],
        None => Seq::empty(),
    })
}

/// The statement that lists the vobes matching a filter, in a sort order.
pub fn list_query(filter: &Filter, sort: Sort) -> (q: Query)
    ensures
        q.sql@ == spec_list_sql(*filter, sort),
        texts(q.args@) == spec_list_args(*filter),
{
    let mut sql = String::from_str("SELECT * FROM vobes WHERE 1=1");
    let mut args: Vec<String> = Vec::new();
    let ghost base = sql@;
    match &filter.tag {
        Some(t) => {
            sql = concat(sql.as_str(), " AND EXISTS (SELECT 1 FROM json_each(vobes.tags) WHERE json_each.value = ?1)");
            args.push(t.clone());
        },
        None => {},
    }
    let ghost after_tag = sql@;
    assert(after_tag == base + when(filter.tag is Some, " AND EXISTS (SELECT 1 FROM json_each(vobes.tags) WHERE json_each.value = ?1)"@));
    assert(texts(args@) =~= (match filter.tag {
        Some(t) => seq![t@],
        None => Seq::<Seq<char>>::empty(),
    }));
    let ghost args_tag = texts(args@);
    match filter.modified_since {
        Some(ts) => {
            let idx = if filter.tag.is_some() {
                "2"
            } else {
                "1"
            };
            sql = concat(
                sql.as_str(),
                &concat(" AND last_modified IS NOT NULL AND last_modified >= ?", idx),
            );
            args.push(ts.to_rfc3339());
            assert(texts(args@) =~= args_tag + seq![spec_rfc3339(ts.nanos)]);
        },
        None => {
            assert(texts(args@) =~= args_tag + Seq::<Seq<char>>::empty());
        },
    }
    let ghost after_since = sql@;
    if filter.only_dirty {
        sql = concat(sql.as_str(), " AND git_dirty = 1");
    }
    let ghost after_dirty = sql@;
    if filter.exclude_archived {
        sql = concat(sql.as_str(), " AND NOT EXISTS (SELECT 1 FROM json_each(vobes.tags) WHERE json_each.value = 'archived')");
    }
    let ghost after_archived = sql@;
    sql = concat(sql.as_str(), sort.order_by());
    assert(sql@ =~= spec_list_sql(*filter, sort));
    Query { sql, args }
}

/// How a single vobe is looked up.
#[derive(Clone, Debug, PartialEq, Eq)]
pub enum VobeKey {
    /// By id.
    Id(VobeId),
    /// By name.
    Name(String),
    /// By path (compared in normal form).
    Path(String),
}

/// The statement that fetches one vobe by a key, and its one argument.
pub open spec fn spec_lookup(key: VobeKey) -> (Seq<char>, Seq<char>) {
    match key {
        VobeKey::Id(id) => ("SELECT * FROM vobes WHERE id = ?1"@, id.0@),
        VobeKey::Name(n) => ("SELECT * FROM vobes WHERE name = ?1"@, n@),
        VobeKey::Path(p) => ("SELECT * FROM vobes WHERE path = ?1"@, spec_normalize(p@)),
    }
}

/// The statement that fetches the vobe with a given id, name or path.
pub fn lookup_query(key: &VobeKey) -> (q: Query)
    ensures
        q.sql@ == spec_lookup(*key).0,
        texts(q.args@) == seq![spec_lookup(*key).1],
{
    let (sql, arg) = match key {
        VobeKey::Id(id) => (String::from_str("SELECT * FROM vobes WHERE id = ?1"), id.0.clone()),
        VobeKey::Name(n) => (String::from_str("SELECT * FROM vobes WHERE name = ?1"), n.clone()),
        VobeKey::Path(p) => (
            String::from_str("SELECT * FROM vobes WHERE path = ?1"),
            normalize(p.as_str()),
        ),
    };
    let mut args: Vec<String> = Vec::new();
    args.push(arg);
    assert(texts(args@) =~= seq![spec_lookup(*key).1]);
    Query { sql, args }
}

/// The row limit handed to SQLite for a requested count: the count as a
/// signed 64-bit value, so a count beyond `i64::MAX` wraps to a negative
/// limit, which SQLite reads as "no limit".
pub fn sql_limit(limit: usize) -> (r: i64)
    ensures
        r == limit as i64,
{
    limit as i64
}

} // verus!
