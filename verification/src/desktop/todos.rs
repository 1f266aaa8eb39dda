//! Finding TODO-style comments in a project: which entries the walk
//! visits, how a file's text splits into lines, and which lines count.

use vstd::prelude::*;

use crate::desktop::dto::TodoHit;
use crate::text::{
    chars_of, chars_start_with, contains, occurs_in, spec_to_uppercase, str_eq, string_of, to_uppercase, trim,
    trim_spec,
};

verus! {

broadcast use vstd::string::group_string_axioms;

/// Directories the walk never enters.
pub const TODO_SKIP_DIRS: [&'static str; 14] = [
    "node_modules",
    "target",
    "dist",
    "build",
    ".git",
    ".next",
    ".turbo",
    ".venv",
    "venv",
    "__pycache__",
    ".cache",
    "Pods",
    ".idea",
    ".vscode",
];

/// Extensions of the files that are read.
pub const TODO_EXTS: [&'static str; 32] = [
    "rs", "ts", "tsx", "js", "jsx", "mjs", "cjs", "py", "rb", "go", "java", "kt", "swift", "c",
    "h", "cc", "cpp", "hpp", "cs", "php", "sh", "zsh", "bash", "lua", "ex", "exs", "scala",
    "sql", "toml", "yaml", "yml", "md",
];

/// At most this many hits are collected.
pub const MAX_TODO_HITS: usize = 100;

/// The walk goes at most this many levels below the project.
pub const MAX_TODO_DEPTH: u32 = 6;

/// `s` with a final carriage return removed.
pub open spec fn strip_cr(s: Seq<char>) -> Seq<char> {
    if s.len() > 0 && s.last() == '\r' {
        s.drop_last()
    } else {
        s
    }
}

/// The pieces of `s` between line feeds (one more than there are line
/// feeds).
pub open spec fn split_lf(s: Seq<char>) -> Seq<Seq<char>>
    decreases s.len(),
{
    if s.len() == 0 {
        seq![Seq::empty()]
    } else {
        let rest = split_lf(s.drop_last());
        if s.last() == '\n' {
            rest.push(Seq::empty())
        } else {
            rest.update(rest.len() - 1, rest.last().push(s.last()))
        }
    }
}

/// The lines of a text, as `str::lines` gives them: split at line feeds,
/// without an empty last piece after a final line feed (so the empty text
/// has no line); a line ended by a line feed loses one carriage return
/// before it, while an unterminated last line is kept as it is.
pub open spec fn spec_lines(s: Seq<char>) -> Seq<Seq<char>> {
    if s.len() == 0 {
        Seq::empty()
    } else if s.last() == '\n' {
        split_lf(s).drop_last().map_values(|p: Seq<char>| strip_cr(p))
    } else {
        let pieces = split_lf(s);
        pieces.drop_last().map_values(|p: Seq<char>| strip_cr(p)).push(pieces.last())
    }
}

proof fn lemma_split_lf_nonempty(s: Seq<char>)
    ensures
        split_lf(s).len() >= 1,
    decreases s.len(),
{
    if s.len() > 0 {
        lemma_split_lf_nonempty(s.drop_last());
    }
}

/// The lines of a text, as `str::lines` gives them.
pub fn text_lines(text: &str) -> (r: Vec<String>)
    ensures
        r@.map_values(|l: String| l@) == spec_lines(text@),
{
    let v = chars_of(text);
    let mut done: Vec<Vec<char>> = Vec::new();
    let mut cur: Vec<char> = Vec::new();
    let mut i: usize = 0;
    while i < v.len()
        invariant
            i <= v@.len(),
            v@ == text@,
            done@.map_values(|p: Vec<char>| p@).push(cur@) == split_lf(v@.take(i as int)),
        decreases v@.len() - i,
    {
        proof {
            assert(v@.take(i + 1).drop_last() =~= v@.take(i as int));
            lemma_split_lf_nonempty(v@.take(i as int));
        }
        let ghost before = done@.map_values(|p: Vec<char>| p@);
        if v[i] == '\n' {
            let finished = cur;
            done.push(finished);
            cur = Vec::new();
            assert(done@.map_values(|p: Vec<char>| p@) =~= before.push(finished@));
            assert(done@.map_values(|p: Vec<char>| p@).push(cur@) =~= split_lf(v@.take(i + 1)));
        } else {
            cur.push(v[i]);
            assert(done@.map_values(|p: Vec<char>| p@).push(cur@) =~= split_lf(v@.take(i + 1)));
        }
        i = i + 1;
    }
    assert(v@.take(v@.len() as int) =~= v@);
    let ghost pieces = done@.map_values(|p: Vec<char>| p@);
    proof {
        lemma_split_lf_nonempty(v@);
        if v@.len() > 0 && v@.last() == '\n' {
            assert(split_lf(v@).drop_last() =~= pieces);
        }
        if v@.len() == 0 {
            assert(split_lf(v@) =~= seq![Seq::<char>::empty()]);
            assert(pieces =~= Seq::<Seq<char>>::empty());
        }
    }
    let mut out: Vec<String> = Vec::new();
    let mut k: usize = 0;
    while k < done.len()
        invariant
            k <= done@.len(),
            pieces == done@.map_values(|p: Vec<char>| p@),
            out@.map_values(|l: String| l@) == pieces.take(k as int).map_values(
                |p: Seq<char>| strip_cr(p),
            ),
        decreases done@.len() - k,
    {
        let piece = &done[k];
        let n = piece.len();
        let mut line: Vec<char> = Vec::new();
        let end: usize = if n > 0 && piece[n - 1] == '\r' {
            n - 1
        } else {
            n
        };
        let mut j: usize = 0;
        while j < end
            invariant
                j <= end <= piece@.len(),
                line@ == piece@.take(j as int),
            decreases end - j,
        {
            line.push(piece[j]);
            j = j + 1;
            assert(line@ =~= piece@.take(j as int));
        }
        assert(line@ =~= strip_cr(piece@));
        let ghost prev = out@.map_values(|l: String| l@);
        out.push(string_of(&line));
        assert(out@.map_values(|l: String| l@) =~= prev.push(strip_cr(pieces[k as int])));
        assert(pieces.take(k + 1).map_values(|p: Seq<char>| strip_cr(p)) =~= pieces.take(
            k as int,
        ).map_values(|p: Seq<char>| strip_cr(p)).push(strip_cr(pieces[k as int])));
        k = k + 1;
    }
    assert(pieces.take(pieces.len() as int) =~= pieces);
    if v.len() > 0 && v[v.len() - 1] != '\n' {
        let ghost prev = out@.map_values(|l: String| l@);
        out.push(string_of(&cur));
        assert(out@.map_values(|l: String| l@) =~= prev.push(cur@));
        assert(split_lf(v@).drop_last() =~= pieces);
    }
    out
}

/// The kind of TODO-style comment a line holds, looking at it in upper
/// case: `FIXME` first, then `TODO`, then `XXX`.
pub open spec fn spec_todo_kind(line: Seq<char>) -> Option<Seq<char>> {
    let up = spec_to_uppercase(line);
    if occurs_in("FIXME"@, up) {
        Some("FIXME"@)
    } else if occurs_in("TODO"@, up) {
        Some("TODO"@)
    } else if occurs_in("XXX"@, up) {
        Some("XXX"@)
    } else {
        None
    }
}

/// The kind of TODO-style comment a line holds, if any.
pub fn todo_kind(line: &str) -> (r: Option<&'static str>)
    ensures
        match r {
            Some(k) => spec_todo_kind(line@) == Some(k@),
            None => spec_todo_kind(line@) is None,
        },
{
    let up = to_uppercase(line);
    if contains(up.as_str(), "FIXME") {
        Some("FIXME")
    } else if contains(up.as_str(), "TODO") {
        Some("TODO")
    } else if contains(up.as_str(), "XXX") {
        Some("XXX")
    } else {
        None
    }
}

/// A hit as texts: kind, line number, file, trimmed text.
pub open spec fn hit_view(h: TodoHit) -> (Seq<char>, u32, Seq<char>, Seq<char>) {
    (h.kind@, h.line, h.file@, h.text@)
}

/// The hits among the first `n` lines, in order.
pub open spec fn hits_upto(lines: Seq<Seq<char>>, n: int, file: Seq<char>) -> Seq<
    (Seq<char>, u32, Seq<char>, Seq<char>),
>
    decreases n,
{
    if n <= 0 {
        Seq::empty()
    } else {
        let prev = hits_upto(lines, n - 1, file);
        match spec_todo_kind(lines[n - 1]) {
            Some(k) => prev.push((k, n as u32, file, trim_spec(lines[n - 1]))),
            None => prev,
        }
    }
}

/// The hits of a file's text, at most `room` of them: every line with a
/// TODO-style comment, numbered from 1, in order.
pub open spec fn spec_file_hits(text: Seq<char>, file: Seq<char>, room: nat) -> Seq<
    (Seq<char>, u32, Seq<char>, Seq<char>),
> {
    let all = hits_upto(spec_lines(text), spec_lines(text).len() as int, file);
    if all.len() <= room {
        all
    } else {
        all.take(room as int)
    }
}

/// The TODO-style comments of a file's text, at most `room` of them.
pub fn file_hits(text: &str, file: &str, room: usize) -> (r: Vec<TodoHit>)
    ensures
        r@.map_values(|h: TodoHit| hit_view(h)) == spec_file_hits(text@, file@, room as nat),
{
    let lines = text_lines(text);
    let ghost ls = lines@.map_values(|l: String| l@);
    let mut out: Vec<TodoHit> = Vec::new();
    let mut i: usize = 0;
    while i < lines.len()
        invariant
            i <= lines@.len(),
            ls == lines@.map_values(|l: String| l@),
            ls == spec_lines(text@),
            out@.len() <= room,
            out@.map_values(|h: TodoHit| hit_view(h)) == hits_upto(ls, i as int, file@),
        decreases lines@.len() - i,
    {
        if out.len() >= room {
            proof {
                lemma_hits_grow(ls, i as int, ls.len() as int, file@);
                assert(hits_upto(ls, ls.len() as int, file@).take(room as int) =~= hits_upto(
                    ls,
                    i as int,
                    file@,
                ));
            }
            return out;
        }
        let ghost prev = out@.map_values(|h: TodoHit| hit_view(h));
        match todo_kind(lines[i].as_str()) {
            Some(k) => {
                out.push(
                    TodoHit {
                        kind: k.to_owned(),
                        line: (i + 1) as u32,
                        file: file.to_owned(),
                        text: trim(lines[i].as_str()),
                    },
                );
                assert(out@.map_values(|h: TodoHit| hit_view(h)) =~= prev.push(
                    (k@, (i + 1) as u32, file@, trim_spec(ls[i as int])),
                ));
            },
            None => {},
        }
        i = i + 1;
    }
    out
}

/// The hits among more lines start with the hits among fewer.
proof fn lemma_hits_grow(lines: Seq<Seq<char>>, m: int, n: int, file: Seq<char>)
    requires
        0 <= m <= n,
    ensures
        hits_upto(lines, n, file).len() >= hits_upto(lines, m, file).len(),
        hits_upto(lines, n, file).take(hits_upto(lines, m, file).len() as int) == hits_upto(
            lines,
            m,
            file,
        ),
    decreases n - m,
{
    if m < n {
        lemma_hits_grow(lines, m, n - 1, file);
        let a = hits_upto(lines, n - 1, file);
        let b = hits_upto(lines, n, file);
        let c = hits_upto(lines, m, file);
        assert(b.take(a.len() as int) =~= a);
        assert(b.take(c.len() as int) =~= a.take(c.len() as int));
    } else {
        assert(hits_upto(lines, n, file).take(hits_upto(lines, n, file).len() as int) =~= hits_upto(
            lines,
            n,
            file,
        ));
    }
}

/// What the walk does with one entry of a directory.
#[derive(Clone, Copy, Debug, PartialEq, Eq, Structural)]
pub enum TodoEntry {
    /// Leave it alone.
    Skip,
    /// Walk into it, one level deeper.
    Descend,
    /// Read it for comments.
    Read,
}

/// The extension of a file name, as `Path::extension` gives it: what
/// follows the last `.`, unless the name is `..` or its only `.` is the
/// first character.
pub open spec fn spec_extension(name: Seq<char>) -> Option<Seq<char>> {
    if name == seq!['.', '.'] {
        None
    } else {
        match last_dot(name) {
            Some(i) => if i == 0 {
                None
            } else {
                Some(name.subrange(i + 1, name.len() as int))
            },
            None => None,
        }
    }
}

/// The position of the last `.` in a name.
pub open spec fn last_dot(name: Seq<char>) -> Option<int>
    decreases name.len(),
{
    if name.len() == 0 {
        None
    } else if name.last() == '.' {
        Some(name.len() - 1)
    } else {
        last_dot(name.drop_last())
    }
}

proof fn lemma_last_dot_bounds(name: Seq<char>)
    ensures
        last_dot(name) matches Some(i) ==> 0 <= i < name.len() && name[i] == '.',
    decreases name.len(),
{
    if name.len() > 0 && name.last() != '.' {
        lemma_last_dot_bounds(name.drop_last());
    }
}

/// The extension of a file name.
pub fn extension(name: &str) -> (r: Option<String>)
    ensures
        match r {
            Some(e) => spec_extension(name@) == Some(e@),
            None => spec_extension(name@) is None,
        },
{
    let v = chars_of(name);
    if v.len() == 2 && v[0] == '.' && v[1] == '.' {
        assert(v@ =~= seq!['.', '.']);
        return None;
    }
    proof {
        if v@ == seq!['.', '.'] {
            assert(v@.len() == 2);
        }
        lemma_last_dot_bounds(v@);
    }
    let mut i: usize = v.len();
    assert(v@.take(v@.len() as int) =~= v@);
    while i > 0 && v[i - 1] != '.'
        invariant
            i <= v@.len(),
            last_dot(v@) == last_dot(v@.take(i as int)),
        decreases i,
    {
        proof {
            assert(v@.take(i as int).drop_last() =~= v@.take(i - 1));
        }
        i = i - 1;
    }
    if i <= 1 {
        proof {
            if i == 1 {
                assert(v@.take(1).last() == '.');
            } else {
                assert(v@.take(0) =~= Seq::<char>::empty());
            }
        }
        return None;
    }
    assert(v@.take(i as int).last() == '.');
    let mut out: Vec<char> = Vec::new();
    let mut k: usize = i;
    while k < v.len()
        invariant
            i <= k <= v@.len(),
            out@ == v@.subrange(i as int, k as int),
        decreases v@.len() - k,
    {
        out.push(v[k]);
        k = k + 1;
        assert(out@ =~= v@.subrange(i as int, k as int));
    }
    Some(string_of(&out))
}

/// Whether a name is in a table.
pub open spec fn listed<const N: usize>(table: [&'static str; N], name: Seq<char>) -> bool {
    exists|i: int| 0 <= i < N && #[trigger] table[i]@ == name
}

/// Whether a directory name is one the walk never enters.
fn is_skipped_dir(name: &str) -> (r: bool)
    ensures
        r == listed(TODO_SKIP_DIRS, name@),
{
    let mut i: usize = 0;
    while i < 14
        invariant
            i <= 14,
            forall|j: int| 0 <= j < i ==> TODO_SKIP_DIRS[j]@ != name@,
        decreases 14 - i,
    {
        if str_eq(TODO_SKIP_DIRS[i], name) {
            return true;
        }
        i = i + 1;
    }
    false
}

/// Whether an extension is one of the files that are read.
fn is_read_ext(ext: &str) -> (r: bool)
    ensures
        r == listed(TODO_EXTS, ext@),
{
    let mut i: usize = 0;
    while i < 32
        invariant
            i <= 32,
            forall|j: int| 0 <= j < i ==> TODO_EXTS[j]@ != ext@,
        decreases 32 - i,
    {
        if str_eq(TODO_EXTS[i], ext) {
            return true;
        }
        i = i + 1;
    }
    false
}

/// What the walk does with an entry: hidden directories (a name starting
/// with `.`, other than `.` and `..`) and the listed heavy directories are
/// skipped, other directories entered; files are read when their
/// extension is listed; anything else is skipped.
pub open spec fn spec_todo_entry(name: Seq<char>, is_dir: bool, is_file: bool) -> TodoEntry {
    let hidden = name.len() > 0 && name[0] == '.' && name != seq!['.'] && name != seq!['.', '.'];
    if hidden && is_dir {
        TodoEntry::Skip
    } else if is_dir {
        if listed(TODO_SKIP_DIRS, name) {
            TodoEntry::Skip
        } else {
            TodoEntry::Descend
        }
    } else if is_file {
        match spec_extension(name) {
            Some(e) => if listed(TODO_EXTS, e) {
                TodoEntry::Read
            } else {
                TodoEntry::Skip
            },
            None => TodoEntry::Skip,
        }
    } else {
        TodoEntry::Skip
    }
}

/// What the walk does with an entry.
pub fn todo_entry(name: &str, is_dir: bool, is_file: bool) -> (r: TodoEntry)
    ensures
        r == spec_todo_entry(name@, is_dir, is_file),
{
    let v = chars_of(name);
    let hidden = v.len() > 0 && v[0] == '.' && !(v.len() == 1) && !(v.len() == 2 && v[1] == '.');
    proof {
        if v@.len() == 1 && v@[0] == '.' {
            assert(v@ =~= seq!['.']);
        }
        if v@.len() == 2 && v@[0] == '.' && v@[1] == '.' {
            assert(v@ =~= seq!['.', '.']);
        }
        if v@ == seq!['.'] {
            assert(v@.len() == 1);
        }
        if v@ == seq!['.', '.'] {
            assert(v@.len() == 2);
        }
    }
    if hidden && is_dir {
        TodoEntry::Skip
    } else if is_dir {
        if is_skipped_dir(name) {
            TodoEntry::Skip
        } else {
            TodoEntry::Descend
        }
    } else if is_file {
        match extension(name) {
            Some(e) => {
                if is_read_ext(e.as_str()) {
                    TodoEntry::Read
                } else {
                    TodoEntry::Skip
                }
            },
            None => TodoEntry::Skip,
        }
    } else {
        TodoEntry::Skip
    }
}

/// Whether the walk looks at a directory at `depth`: not below the depth
/// limit, and only while fewer than the maximum hits were found.
pub fn todo_walk_continues(depth: u32, hits: usize) -> (r: bool)
    ensures
        r == (depth <= MAX_TODO_DEPTH && hits < MAX_TODO_HITS),
{
    depth <= MAX_TODO_DEPTH && hits < MAX_TODO_HITS
}

/// Add a file's hits to those found so far, never beyond the maximum;
/// `true` when the maximum is reached and the walk should stop.
pub fn add_file_hits(out: &mut Vec<TodoHit>, text: &str, file: &str) -> (full: bool)
    requires
        old(out)@.len() <= MAX_TODO_HITS,
    ensures
        final(out)@.map_values(|h: TodoHit| hit_view(h)) == old(out)@.map_values(
            |h: TodoHit| hit_view(h),
        ) + spec_file_hits(text@, file@, (MAX_TODO_HITS - old(out)@.len()) as nat),
        final(out)@.len() <= MAX_TODO_HITS,
        full == (final(out)@.len() >= MAX_TODO_HITS),
{
    let room = MAX_TODO_HITS - out.len();
    let mut hits = file_hits(text, file, room);
    let ghost before = out@;
    let ghost added = hits@;
    assert(added.map_values(|h: TodoHit| hit_view(h)).len() <= room);
    out.append(&mut hits);
    assert(out@.map_values(|h: TodoHit| hit_view(h)) =~= before.map_values(|h: TodoHit| hit_view(h))
        + added.map_values(|h: TodoHit| hit_view(h)));
    out.len() >= MAX_TODO_HITS
}

/// A path relative to a root, as `Path::strip_prefix` gives it for paths
/// in normal form: empty for the root itself, what follows `root/` for a
/// path below it, and the path unchanged otherwise.
pub open spec fn spec_relative_to(root: Seq<char>, path: Seq<char>) -> Seq<char> {
    if path == root {
        Seq::empty()
    } else if root.len() > 0 && root.last() == '/' && path.len() > root.len() && path.take(
        root.len() as int,
    ) == root {
        path.subrange(root.len() as int, path.len() as int)
    } else if path.len() > root.len() + 1 && path.take(root.len() as int) == root
        && path[root.len() as int] == '/' {
        path.subrange(root.len() + 1int, path.len() as int)
    } else {
        path
    }
}

/// A path relative to a root.
pub fn relative_to(root: &str, path: &str) -> (r: String)
    ensures
        r@ == spec_relative_to(root@, path@),
{
    let rv = chars_of(root);
    let pv = chars_of(path);
    if str_eq(root, path) {
        return String::new();
    }
    let same = chars_start_with(&pv, &rv);
    let start: usize = if same && rv.len() > 0 && rv[rv.len() - 1] == '/' && pv.len() > rv.len() {
        rv.len()
    } else if same && pv.len() > rv.len() && pv.len() - rv.len() > 1 && pv[rv.len()] == '/' {
        rv.len() + 1
    } else {
        0
    };
    let mut out: Vec<char> = Vec::new();
    let mut k: usize = start;
    while k < pv.len()
        invariant
            start <= k <= pv@.len(),
            out@ == pv@.subrange(start as int, k as int),
        decreases pv@.len() - k,
    {
        out.push(pv[k]);
        k = k + 1;
        assert(out@ =~= pv@.subrange(start as int, k as int));
    }
    proof {
        if start == 0 {
            assert(pv@.subrange(0, pv@.len() as int) =~= pv@);
        }
    }
    string_of(&out)
}

} // verus!
