//! Path normalization.
//!
//! Project paths are stored in one canonical textual form so that lookups
//! agree however a path was typed:
//! - `\` becomes `/`;
//! - runs of separators collapse and trailing separators go (the root `/`
//!   and a drive root `C:/` stay);
//! - `.` segments vanish and `..` removes the segment before it; a leading
//!   `..` is kept for relative paths and dropped at a root;
//! - a leading `~` is left alone, and nothing touches the filesystem.

use vstd::prelude::*;

use crate::text::{chars_of, string_of};

verus! {

/// An ASCII letter.
pub open spec fn is_ascii_alpha(c: char) -> bool {
    ('a' <= c && c <= 'z') || ('A' <= c && c <= 'Z')
}

/// `s` with every `\` turned into `/`.
pub open spec fn forward_slashes(s: Seq<char>) -> Seq<char> {
    s.map_values(|c: char| if c == '\\' { '/' } else { c })
}

/// The text starts with a Windows drive (`C:`).
pub open spec fn has_drive(t: Seq<char>) -> bool {
    t.len() >= 2 && is_ascii_alpha(t[0]) && t[1] == ':'
}

/// The text starts at the filesystem root.
pub open spec fn starts_at_root(t: Seq<char>) -> bool {
    t.len() >= 1 && t[0] == '/'
}

/// The pieces of `s` between `/` separators (always at least one piece;
/// empty pieces come from adjacent, leading or trailing separators).
pub open spec fn split_slash(s: Seq<char>) -> Seq<Seq<char>>
    decreases s.len(),
{
    if s.len() == 0 {
        seq![Seq::<char>::empty()]
    } else {
        let rest = split_slash(s.drop_last());
        if s.last() == '/' {
            rest.push(Seq::<char>::empty())
        } else {
            rest.update(rest.len() - 1, rest.last().push(s.last()))
        }
    }
}

/// The segment `..`.
pub open spec fn dot_dot() -> Seq<char> {
    seq!['.', '.']
}

/// Apply one segment to the already resolved segments: empty and `.`
/// segments vanish; `..` removes the previous segment, or is kept when
/// there is none to remove (or it is itself `..`) and the path is
/// relative; anything else is appended.
pub open spec fn resolve_segment(parts: Seq<Seq<char>>, seg: Seq<char>, rooted: bool) -> Seq<
    Seq<char>,
> {
    if seg.len() == 0 || seg == seq!['.'] {
        parts
    } else if seg == dot_dot() {
        if parts.len() > 0 && parts.last() != dot_dot() {
            parts.drop_last()
        } else if !rooted {
            parts.push(seg)
        } else {
            parts
        }
    } else {
        parts.push(seg)
    }
}

/// Resolve a list of segments from left to right.
pub open spec fn resolve_all(segs: Seq<Seq<char>>, rooted: bool) -> Seq<Seq<char>>
    decreases segs.len(),
{
    if segs.len() == 0 {
        Seq::empty()
    } else {
        resolve_segment(resolve_all(segs.drop_last(), rooted), segs.last(), rooted)
    }
}

/// Segments joined with `/`.
pub open spec fn join_slash(parts: Seq<Seq<char>>) -> Seq<char>
    decreases parts.len(),
{
    if parts.len() == 0 {
        Seq::empty()
    } else if parts.len() == 1 {
        parts[0]
    } else {
        join_slash(parts.drop_last()) + seq!['/'] + parts.last()
    }
}

/// The root prefix of a (forward-slashed) path: `C:/`, `/` or nothing.
pub open spec fn root_prefix(t: Seq<char>) -> Seq<char> {
    if has_drive(t) {
        seq![t[0], t[1], '/']
    } else if starts_at_root(t) {
        seq!['/']
    } else {
        Seq::empty()
    }
}

/// What follows the root prefix.
pub open spec fn path_body(t: Seq<char>) -> Seq<char> {
    if starts_at_root(t) {
        t.skip(1)
    } else if has_drive(t) {
        t.skip(2)
    } else {
        t
    }
}

/// The resolved segments of a path.
pub open spec fn resolved_parts(s: Seq<char>) -> Seq<Seq<char>> {
    let t = forward_slashes(s);
    resolve_all(split_slash(path_body(t)), starts_at_root(t) || has_drive(t))
}

/// The canonical form of a path.
pub open spec fn spec_normalize(s: Seq<char>) -> Seq<char> {
    let t = forward_slashes(s);
    let joined = root_prefix(t) + join_slash(resolved_parts(s));
    if joined.len() == 0 {
        seq!['.']
    } else {
        joined
    }
}

fn forward_slashes_exec(v: &Vec<char>) -> (t: Vec<char>)
    ensures
        t@ == forward_slashes(v@),
{
    let mut t: Vec<char> = Vec::new();
    let mut i: usize = 0;
    while i < v.len()
        invariant
            i <= v.len(),
            t@ == forward_slashes(v@.take(i as int)),
        decreases v.len() - i,
    {
        let c = v[i];
        if c == '\\' {
            t.push('/');
        } else {
            t.push(c);
        }
        proof {
            assert(v@.take(i + 1) =~= v@.take(i as int).push(c));
        }
        i = i + 1;
        assert(t@ =~= forward_slashes(v@.take(i as int)));
    }
    assert(v@.take(v.len() as int) =~= v@);
    t
}

fn is_dot(seg: &Vec<char>) -> (r: bool)
    ensures
        r == (seg@ == seq!['.']),
{
    if seg.len() == 1 && seg[0] == '.' {
        assert(seg@ =~= seq!['.']);
        true
    } else {
        false
    }
}

fn is_dot_dot(seg: &Vec<char>) -> (r: bool)
    ensures
        r == (seg@ == dot_dot()),
{
    if seg.len() == 2 && seg[0] == '.' && seg[1] == '.' {
        assert(seg@ =~= dot_dot());
        true
    } else {
        false
    }
}

fn resolve_segment_exec(parts: &mut Vec<Vec<char>>, seg: Vec<char>, rooted: bool)
    ensures
        final(parts).deep_view() == resolve_segment(old(parts).deep_view(), seg@, rooted),
{
    let ghost before = parts.deep_view();
    assert(seg.deep_view() =~= seg@);
    if seg.len() == 0 || is_dot(&seg) {
    } else if is_dot_dot(&seg) {
        let n = parts.len();
        if n > 0 {
            assert(before.last() =~= parts[n - 1]@);
        }
        if n > 0 && !is_dot_dot(&parts[n - 1]) {
            parts.pop();
            assert(parts.deep_view() =~= before.drop_last());
        } else if !rooted {
            parts.push(seg);
            assert(parts.deep_view() =~= before.push(seg@));
        }
    } else {
        parts.push(seg);
        assert(parts.deep_view() =~= before.push(seg@));
    }
}

proof fn lemma_split_slash_nonempty(s: Seq<char>)
    ensures
        split_slash(s).len() >= 1,
    decreases s.len(),
{
    if s.len() > 0 {
        lemma_split_slash_nonempty(s.drop_last());
    }
}

/// Normalize a path to its canonical string form.
pub fn normalize(path: &str) -> (r: String)
    ensures
        r@ == spec_normalize(path@),
{
    let chars = chars_of(path);
    let t = forward_slashes_exec(&chars);
    let absolute = t.len() >= 1 && t[0] == '/';
    let drive = t.len() >= 2 && (('a' <= t[0] && t[0] <= 'z') || ('A' <= t[0] && t[0] <= 'Z'))
        && t[1] == ':';
    let rooted = absolute || drive;
    let start: usize = if absolute {
        1
    } else if drive {
        2
    } else {
        0
    };
    let ghost body = path_body(t@);
    assert(body =~= t@.subrange(start as int, t@.len() as int));

    let mut parts: Vec<Vec<char>> = Vec::new();
    let mut cur: Vec<char> = Vec::new();
    let mut i: usize = start;
    proof {
        assert(t@.subrange(start as int, start as int) =~= Seq::<char>::empty());
        assert(split_slash(Seq::<char>::empty()).drop_last() =~= Seq::<Seq<char>>::empty());
        assert(parts.deep_view() =~= Seq::<Seq<char>>::empty());
    }
    while i < t.len()
        invariant
            start <= i <= t.len(),
            parts.deep_view() == resolve_all(
                split_slash(t@.subrange(start as int, i as int)).drop_last(),
                rooted,
            ),
            cur@ == split_slash(t@.subrange(start as int, i as int)).last(),
        decreases t.len() - i,
    {
        let ghost pre = t@.subrange(start as int, i as int);
        let ghost next = t@.subrange(start as int, i + 1);
        proof {
            assert(next.drop_last() =~= pre);
            assert(next.last() == t@[i as int]);
            lemma_split_slash_nonempty(pre);
        }
        let c = t[i];
        if c == '/' {
            let seg = cur;
            cur = Vec::new();
            resolve_segment_exec(&mut parts, seg, rooted);
            proof {
                let sp = split_slash(pre);
                assert(split_slash(next) == sp.push(Seq::<char>::empty()));
                assert(split_slash(next).drop_last() =~= sp);
                assert(sp =~= sp.drop_last().push(sp.last()));
                assert(resolve_all(sp, rooted) == resolve_segment(
                    resolve_all(sp.drop_last(), rooted),
                    sp.last(),
                    rooted,
                ));
            }
        } else {
            cur.push(c);
            proof {
                let sp = split_slash(pre);
                assert(split_slash(next) == sp.update(sp.len() - 1, sp.last().push(c)));
                assert(split_slash(next).drop_last() =~= sp.drop_last());
            }
        }
        i = i + 1;
    }
    proof {
        let sp = split_slash(body);
        lemma_split_slash_nonempty(body);
        assert(t@.subrange(start as int, t.len() as int) =~= body);
        assert(sp =~= sp.drop_last().push(sp.last()));
    }
    resolve_segment_exec(&mut parts, cur, rooted);
    let ghost resolved = parts.deep_view();
    assert(resolved == resolved_parts(path@));

    let mut out: Vec<char> = Vec::new();
    if drive {
        out.push(t[0]);
        out.push(t[1]);
        out.push('/');
    } else if absolute {
        out.push('/');
    }
    let ghost prefix = out@;
    assert(prefix =~= root_prefix(t@));
    let mut k: usize = 0;
    while k < parts.len()
        invariant
            k <= parts.len(),
            parts.deep_view() == resolved,
            out@ == prefix + join_slash(resolved.take(k as int)),
        decreases parts.len() - k,
    {
        let ghost before = out@;
        if k > 0 {
            out.push('/');
        }
        let seg = &parts[k];
        let mut j: usize = 0;
        while j < seg.len()
            invariant
                j <= seg.len(),
                out@ == before + (if k > 0 {
                    seq!['/']
                } else {
                    Seq::<char>::empty()
                }) + seg@.take(j as int),
            decreases seg.len() - j,
        {
            out.push(seg[j]);
            proof {
                assert(seg@.take(j + 1) =~= seg@.take(j as int).push(seg@[j as int]));
            }
            j = j + 1;
            assert(out@ =~= before + (if k > 0 {
                seq!['/']
            } else {
                Seq::<char>::empty()
            }) + seg@.take(j as int));
        }
        proof {
            assert(seg@.take(seg@.len() as int) =~= seg@);
            assert(resolved[k as int] == seg@);
            let tk1 = resolved.take(k + 1);
            assert(tk1.drop_last() =~= resolved.take(k as int));
            assert(tk1.last() == seg@);
            if k == 0 {
                assert(join_slash(tk1) == tk1[0]);
                assert(out@ =~= prefix + join_slash(tk1));
            } else {
                assert(out@ =~= prefix + join_slash(tk1));
            }
        }
        k = k + 1;
    }
    assert(resolved.take(parts.len() as int) =~= resolved);
    if out.len() == 0 {
        out.push('.');
        assert(out@ =~= seq!['.']);
    }
    string_of(&out)
}

/// Normalize a path given as text (same as [`normalize`]).
pub fn normalize_str(s: &str) -> (r: String)
    ensures
        r@ == spec_normalize(s@),
{
    normalize(s)
}

} // verus!
