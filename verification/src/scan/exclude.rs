//! Directory names the scanner never descends into, or never treats as
//! projects of their own.

use vstd::prelude::*;

use crate::path_laws::lacks;
use crate::text::{chars_of, str_eq};

verus! {

/// Junk and build directories excluded from every descent.
pub const BUILTIN_EXCLUDES: [&'static str; 17] = [
    "node_modules",
    ".git",
    "target",
    "dist",
    "build",
    ".cache",
    "vendor",
    ".next",
    ".venv",
    ".idea",
    ".vscode",
    "__pycache__",
    ".mypy_cache",
    ".pytest_cache",
    ".gradle",
    ".sass-cache",
    "*.egg-info",
];

/// Source-only subdirectories: never candidates of their own, but still
/// part of their parent's language census.
pub const CODE_SUBDIR_EXCLUDES: [&'static str; 4] = ["src", "src-tauri", "lib", "app"];

/// `s` matches the pattern `p`, where `*` stands for any run of
/// characters (possibly empty) and every other character for itself. A
/// pattern without `*` matches only itself.
pub open spec fn glob_match(p: Seq<char>, s: Seq<char>) -> bool
    decreases p.len(), s.len(),
{
    if p.len() == 0 {
        s.len() == 0
    } else if p[0] == '*' {
        glob_match(p.drop_first(), s) || (s.len() > 0 && glob_match(p, s.drop_first()))
    } else {
        s.len() > 0 && p[0] == s[0] && glob_match(p.drop_first(), s.drop_first())
    }
}

/// `name` matches one of the built-in excludes (`*.egg-info` matches
/// `mypkg.egg-info`).
pub open spec fn is_builtin_exclude(name: Seq<char>) -> bool {
    exists|i: int| 0 <= i < 17 && glob_match(#[trigger] BUILTIN_EXCLUDES[i]@, name)
}

/// `name` is excluded: it matches a built-in exclude pattern, or it is
/// one of the user's extra names (compared literally).
pub open spec fn spec_is_excluded(name: Seq<char>, extra: Seq<String>) -> bool {
    is_builtin_exclude(name) || exists|i: int| 0 <= i < extra.len() && #[trigger] extra[i]@ == name
}

/// Whether `s[j..]` matches `p[i..]`.
fn glob_from(p: &Vec<char>, i: usize, s: &Vec<char>, j: usize) -> (r: bool)
    requires
        i <= p@.len(),
        j <= s@.len(),
    ensures
        r == glob_match(p@.subrange(i as int, p@.len() as int), s@.subrange(j as int, s@.len() as int)),
    decreases p@.len() - i, s@.len() - j,
{
    let ghost ps = p@.subrange(i as int, p@.len() as int);
    let ghost ss = s@.subrange(j as int, s@.len() as int);
    if i == p.len() {
        return j == s.len();
    }
    assert(ps[0] == p@[i as int]);
    assert(ps.drop_first() =~= p@.subrange(i + 1, p@.len() as int));
    if j < s.len() {
        assert(ss[0] == s@[j as int]);
        assert(ss.drop_first() =~= s@.subrange(j + 1, s@.len() as int));
    }
    if p[i] == '*' {
        if glob_from(p, i + 1, s, j) {
            true
        } else if j < s.len() {
            glob_from(p, i, s, j + 1)
        } else {
            false
        }
    } else {
        j < s.len() && p[i] == s[j] && glob_from(p, i + 1, s, j + 1)
    }
}

/// Whether `name` matches the pattern `pat` (see [`glob_match`]).
pub fn glob(pat: &str, name: &str) -> (r: bool)
    ensures
        r == glob_match(pat@, name@),
{
    let p = chars_of(pat);
    let s = chars_of(name);
    assert(p@.subrange(0, p@.len() as int) =~= p@);
    assert(s@.subrange(0, s@.len() as int) =~= s@);
    glob_from(&p, 0, &s, 0)
}

/// `name` is a source-only subdirectory.
pub open spec fn spec_is_code_subdir(name: Seq<char>) -> bool {
    exists|i: int| 0 <= i < 4 && #[trigger] CODE_SUBDIR_EXCLUDES[i]@ == name
}

/// Whether a directory name is excluded from descent: it matches one of
/// the built-in junk patterns or equals one of the user's extras. `name`
/// is a file-name component.
pub fn is_excluded(name: &str, extra: &[String]) -> (r: bool)
    ensures
        r == spec_is_excluded(name@, extra@),
{
    let mut i: usize = 0;
    while i < 17
        invariant
            i <= 17,
            forall|j: int| 0 <= j < i ==> !glob_match(#[trigger] BUILTIN_EXCLUDES[j]@, name@),
        decreases 17 - i,
    {
        if glob(BUILTIN_EXCLUDES[i], name) {
            return true;
        }
        i = i + 1;
    }
    let mut k: usize = 0;
    while k < extra.len()
        invariant
            k <= extra.len(),
            !is_builtin_exclude(name@),
            forall|j: int| 0 <= j < k ==> extra@[j]@ != name@,
        decreases extra.len() - k,
    {
        if str_eq(extra[k].as_str(), name) {
            return true;
        }
        k = k + 1;
    }
    false
}

/// Whether a directory is source-only and never a candidate of its own.
pub fn is_code_subdir(name: &str) -> (r: bool)
    ensures
        r == spec_is_code_subdir(name@),
{
    let mut i: usize = 0;
    while i < 4
        invariant
            i <= 4,
            forall|j: int| 0 <= j < i ==> CODE_SUBDIR_EXCLUDES[j]@ != name@,
        decreases 4 - i,
    {
        if str_eq(CODE_SUBDIR_EXCLUDES[i], name) {
            return true;
        }
        i = i + 1;
    }
    false
}

/// A pattern without `*` matches exactly itself.
pub proof fn law_glob_literal(p: Seq<char>, s: Seq<char>)
    requires
        lacks(p, '*'),
    ensures
        glob_match(p, s) <==> p == s,
    decreases p.len(),
{
    if p.len() == 0 {
        if s.len() > 0 {
            assert(p != s);
        } else {
            assert(p =~= s);
        }
    } else {
        assert(p[0] != '*');
        assert(lacks(p.drop_first(), '*'));
        if s.len() > 0 {
            law_glob_literal(p.drop_first(), s.drop_first());
            if p[0] == s[0] && p.drop_first() == s.drop_first() {
                assert(p =~= seq![p[0]] + p.drop_first());
                assert(s =~= seq![s[0]] + s.drop_first());
            }
            if p == s {
                assert(p.drop_first() =~= s.drop_first());
            }
        } else {
            assert(p != s);
        }
    }
}

/// `s` ends with `q`.
pub open spec fn ends_with(s: Seq<char>, q: Seq<char>) -> bool {
    s.len() >= q.len() && s.skip(s.len() - q.len()) == q
}

/// A pattern `*` followed by a text without `*` matches exactly the
/// names that end with that text.
pub proof fn law_glob_suffix(q: Seq<char>, s: Seq<char>)
    requires
        lacks(q, '*'),
    ensures
        glob_match(seq!['*'] + q, s) <==> ends_with(s, q),
    decreases s.len(),
{
    let p = seq!['*'] + q;
    assert(p[0] == '*');
    assert(p.drop_first() =~= q);
    law_glob_literal(q, s);
    if s.len() > 0 {
        law_glob_suffix(q, s.drop_first());
        let d = s.drop_first();
        if s.len() > q.len() {
            assert(s.skip(s.len() - q.len()) =~= d.skip(d.len() - q.len()));
            assert(s != q);
        } else if s.len() == q.len() {
            assert(s.skip(0) =~= s);
            assert(!ends_with(d, q));
        } else {
            assert(!ends_with(d, q));
            assert(s != q);
        }
    } else {
        if q.len() == 0 {
            assert(s.skip(0) =~= q);
            assert(s =~= q);
        }
    }
}

proof fn lemma_builtin_literal(i: int)
    requires
        0 <= i < 16,
    ensures
        lacks(BUILTIN_EXCLUDES[i]@, '*'),
{
    reveal_strlit("node_modules");
    reveal_strlit(".git");
    reveal_strlit("target");
    reveal_strlit("dist");
    reveal_strlit("build");
    reveal_strlit(".cache");
    reveal_strlit("vendor");
    reveal_strlit(".next");
    reveal_strlit(".venv");
    reveal_strlit(".idea");
    reveal_strlit(".vscode");
    reveal_strlit("__pycache__");
    reveal_strlit(".mypy_cache");
    reveal_strlit(".pytest_cache");
    reveal_strlit(".gradle");
    reveal_strlit(".sass-cache");
}

/// A directory is excluded exactly when its name is one of the built-in
/// junk names, ends with `.egg-info`, or equals one of the user's extra
/// names; nothing else is excluded.
pub proof fn law_excluded_names(name: Seq<char>, extra: Seq<String>)
    ensures
        spec_is_excluded(name, extra) <==> (exists|i: int| 0 <= i < 16 && #[trigger] BUILTIN_EXCLUDES[i]@ == name)
            || ends_with(name, ".egg-info"@) || (exists|i: int|
            0 <= i < extra.len() && #[trigger] extra[i]@ == name),
{
    reveal_strlit("*.egg-info");
    reveal_strlit(".egg-info");
    assert(BUILTIN_EXCLUDES[16]@ =~= seq!['*'] + ".egg-info"@);
    assert(lacks(".egg-info"@, '*'));
    law_glob_suffix(".egg-info"@, name);
    assert forall|i: int| 0 <= i < 16 implies (glob_match(#[trigger] BUILTIN_EXCLUDES[i]@, name) <==> BUILTIN_EXCLUDES[i]@ == name) by {
        lemma_builtin_literal(i);
        law_glob_literal(BUILTIN_EXCLUDES[i]@, name);
    }
    if is_builtin_exclude(name) {
        let i = choose|i: int| 0 <= i < 17 && glob_match(#[trigger] BUILTIN_EXCLUDES[i]@, name);
        if i < 16 {
            assert(BUILTIN_EXCLUDES[i]@ == name);
        }
    }
    if exists|i: int| 0 <= i < 16 && #[trigger] BUILTIN_EXCLUDES[i]@ == name {
        let i = choose|i: int| 0 <= i < 16 && #[trigger] BUILTIN_EXCLUDES[i]@ == name;
        assert(glob_match(BUILTIN_EXCLUDES[i]@, name));
    }
    if ends_with(name, ".egg-info"@) {
        assert(glob_match(BUILTIN_EXCLUDES[16]@, name));
    }
}

} // verus!
