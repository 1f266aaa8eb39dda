//! Laws of path normalization.

use vstd::prelude::*;

use crate::path::{
    dot_dot, forward_slashes, has_drive, join_slash, path_body, resolve_all, resolve_segment,
    resolved_parts, root_prefix, spec_normalize, split_slash, starts_at_root,
};

verus! {

/// `c` does not occur in `s`.
pub open spec fn lacks(s: Seq<char>, c: char) -> bool {
    forall|i: int| 0 <= i < s.len() ==> s[i] != c
}

/// A resolved segment: non-empty, not `.`, without separators of either kind.
pub open spec fn clean_segment(p: Seq<char>) -> bool {
    &&& p.len() > 0
    &&& p != seq!['.']
    &&& lacks(p, '/')
    &&& lacks(p, '\\')
}

/// Resolved segments: all clean; at a root no `..` remains, and in a
/// relative path every `..` comes before every other segment.
pub open spec fn clean_parts(parts: Seq<Seq<char>>, rooted: bool) -> bool {
    &&& forall|k: int| 0 <= k < parts.len() ==> clean_segment(#[trigger] parts[k])
    &&& rooted ==> forall|k: int| 0 <= k < parts.len() ==> #[trigger] parts[k] != dot_dot()
    &&& forall|j: int, k: int|
        0 <= j < k < parts.len() && #[trigger] parts[k] == dot_dot() ==> #[trigger] parts[j]
            == dot_dot()
}

proof fn lemma_split_lacks(s: Seq<char>, c: char)
    requires
        c == '/' || lacks(s, c),
    ensures
        forall|k: int| 0 <= k < split_slash(s).len() ==> lacks(#[trigger] split_slash(s)[k], c),
        split_slash(s).len() >= 1,
    decreases s.len(),
{
    if s.len() > 0 {
        let pre = s.drop_last();
        assert(c == '/' || lacks(pre, c));
        lemma_split_lacks(pre, c);
        let rest = split_slash(pre);
        if s.last() != '/' {
            let sp = split_slash(s);
            assert(sp == rest.update(rest.len() - 1, rest.last().push(s.last())));
            assert forall|k: int| 0 <= k < sp.len() implies lacks(#[trigger] sp[k], c) by {
                if k == rest.len() - 1 {
                    let p = rest.last().push(s.last());
                    assert(lacks(rest[k], c));
                    assert(s.last() == s[s.len() - 1]);
                    assert forall|i: int| 0 <= i < p.len() implies p[i] != c by {
                        if i < p.len() - 1 {
                            assert(p[i] == rest[k][i]);
                        }
                    }
                }
            }
        }
    }
}

proof fn lemma_resolve_clean(segs: Seq<Seq<char>>, rooted: bool)
    requires
        forall|k: int| 0 <= k < segs.len() ==> lacks(#[trigger] segs[k], '/') && lacks(segs[k], '\\'),
    ensures
        clean_parts(resolve_all(segs, rooted), rooted),
    decreases segs.len(),
{
    if segs.len() > 0 {
        let init = segs.drop_last();
        assert forall|k: int| 0 <= k < init.len() implies lacks(#[trigger] init[k], '/') && lacks(
            init[k],
            '\\',
        ) by {
            assert(init[k] == segs[k]);
        }
        lemma_resolve_clean(init, rooted);
        let parts = resolve_all(init, rooted);
        let seg = segs.last();
        assert(lacks(segs[segs.len() - 1], '/'));
        let r = resolve_all(segs, rooted);
        assert(r == resolve_segment(parts, seg, rooted));
        if seg.len() == 0 || seg == seq!['.'] {
        } else if seg == dot_dot() {
            if parts.len() > 0 && parts.last() != dot_dot() {
                assert(r == parts.drop_last());
                assert forall|j: int, k: int|
                    0 <= j < k < r.len() && #[trigger] r[k] == dot_dot() implies #[trigger] r[j]
                    == dot_dot() by {
                    assert(r[k] == parts[k]);
                    assert(r[j] == parts[j]);
                }
                assert forall|k: int| 0 <= k < r.len() implies clean_segment(#[trigger] r[k]) by {
                    assert(r[k] == parts[k]);
                }
                assert(rooted ==> forall|k: int| 0 <= k < r.len() ==> #[trigger] r[k] != dot_dot())
                    by {
                    if rooted {
                        assert forall|k: int| 0 <= k < r.len() implies #[trigger] r[k]
                            != dot_dot() by {
                            assert(r[k] == parts[k]);
                        }
                    }
                }
            } else if !rooted {
                assert(r == parts.push(seg));
                assert(lacks(dot_dot(), '/') && lacks(dot_dot(), '\\'));
                assert(dot_dot() != seq!['.']) by {
                    assert(dot_dot().len() != seq!['.'].len());
                }
                assert forall|k: int| 0 <= k < r.len() implies clean_segment(#[trigger] r[k]) by {
                    if k < parts.len() {
                        assert(r[k] == parts[k]);
                    }
                }
                assert forall|j: int, k: int|
                    0 <= j < k < r.len() && #[trigger] r[k] == dot_dot() implies #[trigger] r[j]
                    == dot_dot() by {
                    assert(r[j] == parts[j]);
                    if k < parts.len() {
                        assert(r[k] == parts[k]);
                    } else {
                        assert(parts[parts.len() - 1] == dot_dot());
                        if j < parts.len() - 1 {
                            assert(parts[j] == dot_dot());
                        }
                    }
                }
            }
        } else {
            assert(r == parts.push(seg));
            assert(lacks(segs[segs.len() - 1], '\\'));
            assert forall|k: int| 0 <= k < r.len() implies clean_segment(#[trigger] r[k]) by {
                if k < parts.len() {
                    assert(r[k] == parts[k]);
                }
            }
            assert forall|j: int, k: int|
                0 <= j < k < r.len() && #[trigger] r[k] == dot_dot() implies #[trigger] r[j]
                == dot_dot() by {
                assert(r[j] == parts[j]);
                assert(r[k] == parts[k]);
            }
            assert(rooted ==> forall|k: int| 0 <= k < r.len() ==> #[trigger] r[k] != dot_dot()) by {
                if rooted {
                    assert forall|k: int| 0 <= k < r.len() implies #[trigger] r[k] != dot_dot() by {
                        if k < parts.len() {
                            assert(r[k] == parts[k]);
                        }
                    }
                }
            }
        }
    }
}

proof fn lemma_split_single(b: Seq<char>)
    requires
        lacks(b, '/'),
    ensures
        split_slash(b) == seq![b],
    decreases b.len(),
{
    if b.len() > 0 {
        let pre = b.drop_last();
        assert(lacks(pre, '/'));
        lemma_split_single(pre);
        assert(b.last() == b[b.len() - 1]);
        assert(pre.push(b.last()) =~= b);
        assert(split_slash(b) =~= seq![b]);
    } else {
        assert(b =~= Seq::<char>::empty());
    }
}

proof fn lemma_split_append(a: Seq<char>, b: Seq<char>)
    requires
        lacks(b, '/'),
    ensures
        split_slash(a + seq!['/'] + b) == split_slash(a).push(b),
    decreases b.len(),
{
    let x = a + seq!['/'] + b;
    if b.len() == 0 {
        assert(x.drop_last() =~= a);
        assert(b =~= Seq::<char>::empty());
    } else {
        let pre = b.drop_last();
        assert(lacks(pre, '/'));
        lemma_split_append(a, pre);
        assert(x.drop_last() =~= a + seq!['/'] + pre);
        assert(x.last() == b[b.len() - 1]);
        let r = split_slash(a).push(pre);
        assert(split_slash(x) == r.update(r.len() - 1, r.last().push(x.last())));
        assert(pre.push(x.last()) =~= b);
        assert(split_slash(x) =~= split_slash(a).push(b));
    }
}

proof fn lemma_split_join(parts: Seq<Seq<char>>)
    requires
        parts.len() >= 1,
        forall|k: int| 0 <= k < parts.len() ==> lacks(#[trigger] parts[k], '/'),
    ensures
        split_slash(join_slash(parts)) == parts,
    decreases parts.len(),
{
    if parts.len() == 1 {
        assert(lacks(parts[0], '/'));
        lemma_split_single(parts[0]);
        assert(parts =~= seq![parts[0]]);
    } else {
        let init = parts.drop_last();
        assert forall|k: int| 0 <= k < init.len() implies lacks(#[trigger] init[k], '/') by {
            assert(init[k] == parts[k]);
        }
        lemma_split_join(init);
        assert(lacks(parts[parts.len() - 1], '/'));
        lemma_split_append(join_slash(init), parts.last());
        assert(init.push(parts.last()) =~= parts);
    }
}

proof fn lemma_split_slash_join(parts: Seq<Seq<char>>)
    requires
        parts.len() >= 1,
        forall|k: int| 0 <= k < parts.len() ==> lacks(#[trigger] parts[k], '/'),
    ensures
        split_slash(seq!['/'] + join_slash(parts)) == seq![Seq::<char>::empty()] + parts,
    decreases parts.len(),
{
    if parts.len() == 1 {
        assert(lacks(parts[0], '/'));
        lemma_split_append(Seq::<char>::empty(), parts[0]);
        assert(Seq::<char>::empty() + seq!['/'] + parts[0] =~= seq!['/'] + join_slash(parts));
        assert(split_slash(Seq::<char>::empty()) =~= seq![Seq::<char>::empty()]);
        assert(seq![Seq::<char>::empty()].push(parts[0]) =~= seq![Seq::<char>::empty()] + parts);
    } else {
        let init = parts.drop_last();
        assert forall|k: int| 0 <= k < init.len() implies lacks(#[trigger] init[k], '/') by {
            assert(init[k] == parts[k]);
        }
        lemma_split_slash_join(init);
        assert(lacks(parts[parts.len() - 1], '/'));
        lemma_split_append(seq!['/'] + join_slash(init), parts.last());
        assert(seq!['/'] + join_slash(init) + seq!['/'] + parts.last() =~= seq!['/'] + join_slash(
            parts,
        ));
        assert((seq![Seq::<char>::empty()] + init).push(parts.last()) =~= seq![
            Seq::<char>::empty(),
        ] + parts);
    }
}

proof fn lemma_resolve_leading_empty(ps: Seq<Seq<char>>, rooted: bool)
    ensures
        resolve_all(seq![Seq::<char>::empty()] + ps, rooted) == resolve_all(ps, rooted),
    decreases ps.len(),
{
    let e = seq![Seq::<char>::empty()];
    if ps.len() == 0 {
        assert(e + ps =~= e);
        assert(e.drop_last() =~= Seq::<Seq<char>>::empty());
        assert(resolve_all(Seq::<Seq<char>>::empty(), rooted) == Seq::<Seq<char>>::empty());
        assert(e.last() == Seq::<char>::empty());
        assert(resolve_all(e, rooted) == resolve_segment(
            Seq::<Seq<char>>::empty(),
            Seq::<char>::empty(),
            rooted,
        ));
    } else {
        lemma_resolve_leading_empty(ps.drop_last(), rooted);
        assert((e + ps).drop_last() =~= e + ps.drop_last());
        assert((e + ps).last() == ps.last());
        assert(resolve_all(e + ps, rooted) == resolve_segment(
            resolve_all(e + ps.drop_last(), rooted),
            ps.last(),
            rooted,
        ));
    }
}

proof fn lemma_resolve_clean_fixed(parts: Seq<Seq<char>>, rooted: bool)
    requires
        clean_parts(parts, rooted),
    ensures
        resolve_all(parts, rooted) == parts,
    decreases parts.len(),
{
    if parts.len() > 0 {
        let init = parts.drop_last();
        assert(clean_parts(init, rooted)) by {
            assert forall|k: int| 0 <= k < init.len() implies clean_segment(#[trigger] init[k]) by {
                assert(init[k] == parts[k]);
            }
            assert forall|j: int, k: int|
                0 <= j < k < init.len() && #[trigger] init[k] == dot_dot() implies #[trigger] init[j]
                == dot_dot() by {
                assert(init[k] == parts[k]);
                assert(init[j] == parts[j]);
            }
            if rooted {
                assert forall|k: int| 0 <= k < init.len() implies #[trigger] init[k] != dot_dot() by {
                    assert(init[k] == parts[k]);
                }
            }
        }
        lemma_resolve_clean_fixed(init, rooted);
        let last = parts.last();
        assert(clean_segment(parts[parts.len() - 1]));
        assert(init.push(last) =~= parts);
        if last == dot_dot() {
            assert(parts[parts.len() - 1] == dot_dot());
            if init.len() > 0 {
                assert(parts[init.len() - 1] == dot_dot());
            }
        }
    }
}

proof fn lemma_join_first(p: Seq<char>, rest: Seq<Seq<char>>)
    requires
        rest.len() >= 1,
    ensures
        join_slash(seq![p] + rest) == p + seq!['/'] + join_slash(rest),
    decreases rest.len(),
{
    let all = seq![p] + rest;
    if rest.len() == 1 {
        assert(all.drop_last() =~= seq![p]);
        assert(all.last() == rest[0]);
        assert(join_slash(seq![p]) == p);
        assert(join_slash(rest) == rest[0]);
    } else {
        let rd = rest.drop_last();
        lemma_join_first(p, rd);
        assert(all.drop_last() =~= seq![p] + rd);
        assert(all.last() == rest.last());
        assert(join_slash(rest) == join_slash(rd) + seq!['/'] + rest.last());
        assert(join_slash(all) == join_slash(seq![p] + rd) + seq!['/'] + rest.last());
        assert(join_slash(all) =~= p + seq!['/'] + join_slash(rest));
    }
}

proof fn lemma_join_lacks(parts: Seq<Seq<char>>)
    requires
        forall|k: int| 0 <= k < parts.len() ==> lacks(#[trigger] parts[k], '\\'),
    ensures
        lacks(join_slash(parts), '\\'),
    decreases parts.len(),
{
    if parts.len() > 1 {
        let init = parts.drop_last();
        assert forall|k: int| 0 <= k < init.len() implies lacks(#[trigger] init[k], '\\') by {
            assert(init[k] == parts[k]);
        }
        lemma_join_lacks(init);
        let j = join_slash(parts);
        let a = join_slash(init);
        let b = parts.last();
        assert(lacks(parts[parts.len() - 1], '\\'));
        assert(j == a + seq!['/'] + b);
        assert forall|i: int| 0 <= i < j.len() implies j[i] != '\\' by {
            if i < a.len() {
                assert(j[i] == a[i]);
            } else if i > a.len() {
                assert(j[i] == b[i - a.len() - 1]);
            }
        }
    } else if parts.len() == 1 {
        assert(lacks(parts[0], '\\'));
    }
}

proof fn lemma_forward_slashes_lacks(s: Seq<char>)
    ensures
        lacks(forward_slashes(s), '\\'),
        forward_slashes(forward_slashes(s)) == forward_slashes(s),
{
    assert(forward_slashes(forward_slashes(s)) =~= forward_slashes(s));
}

proof fn lemma_forward_slashes_fixed(s: Seq<char>)
    requires
        lacks(s, '\\'),
    ensures
        forward_slashes(s) == s,
{
    assert(forward_slashes(s) =~= s);
}

/// The resolved segments of any path are clean.
proof fn lemma_resolved_clean(s: Seq<char>)
    ensures
        clean_parts(
            resolved_parts(s),
            starts_at_root(forward_slashes(s)) || has_drive(forward_slashes(s)),
        ),
{
    let t = forward_slashes(s);
    lemma_forward_slashes_lacks(s);
    let body = path_body(t);
    assert(lacks(body, '\\')) by {
        assert forall|i: int| 0 <= i < body.len() implies body[i] != '\\' by {
            if starts_at_root(t) {
                assert(body[i] == t[i + 1]);
            } else if has_drive(t) {
                assert(body[i] == t[i + 2]);
            }
        }
    }
    lemma_split_lacks(body, '/');
    lemma_split_lacks(body, '\\');
    lemma_resolve_clean(split_slash(body), starts_at_root(t) || has_drive(t));
}

/// Normalizing twice gives what normalizing once gives. The one exception is
/// a relative path whose canonical form begins with a letter and `:` that is
/// not followed by `/` (`./c:x` becomes `c:x`, which then reads as the drive
/// `c:`); such forms are left out.
pub proof fn law_normalize_idempotent(s: Seq<char>)
    requires
        has_drive(spec_normalize(s)) ==> spec_normalize(s).len() > 2 && spec_normalize(s)[2]
            == '/',
    ensures
        spec_normalize(spec_normalize(s)) == spec_normalize(s),
{
    let t = forward_slashes(s);
    let o = spec_normalize(s);
    let parts = resolved_parts(s);
    let rooted = starts_at_root(t) || has_drive(t);
    lemma_resolved_clean(s);
    lemma_forward_slashes_lacks(s);
    assert forall|k: int| 0 <= k < parts.len() implies lacks(#[trigger] parts[k], '/') && lacks(
        parts[k],
        '\\',
    ) by {
        assert(clean_segment(parts[k]));
    }
    lemma_join_lacks(parts);
    let j = join_slash(parts);
    let prefix = root_prefix(t);
    assert(lacks(prefix, '\\'));
    assert(lacks(prefix + j, '\\')) by {
        let x = prefix + j;
        assert forall|i: int| 0 <= i < x.len() implies x[i] != '\\' by {
            if i >= prefix.len() {
                assert(x[i] == j[i - prefix.len()]);
            }
        }
    }
    assert(lacks(o, '\\'));
    lemma_forward_slashes_fixed(o);
    let t2 = forward_slashes(o);
    assert(t2 == o);
    if parts.len() == 0 {
        assert(j =~= Seq::<char>::empty());
        if has_drive(t) {
            assert(o =~= seq![t[0], t[1], '/']);
            assert(path_body(o) =~= seq!['/']);
            assert(seq!['/'].drop_last() =~= Seq::<char>::empty());
            assert(seq!['/'].last() == '/');
            assert(split_slash(Seq::<char>::empty()) == seq![Seq::<char>::empty()]);
            assert(split_slash(seq!['/']) =~= seq![Seq::<char>::empty(), Seq::<char>::empty()]);
            let e = seq![Seq::<char>::empty(), Seq::<char>::empty()];
            let e1 = seq![Seq::<char>::empty()];
            assert(e.drop_last() =~= e1);
            assert(e1.drop_last() =~= Seq::<Seq<char>>::empty());
            assert(resolve_all(e1, true) == Seq::<Seq<char>>::empty()) by {
                assert(resolve_all(e1, true) == resolve_segment(
                    resolve_all(e1.drop_last(), true),
                    e1.last(),
                    true,
                ));
            }
            assert(resolve_all(e, true) == resolve_segment(
                resolve_all(e1, true),
                e.last(),
                true,
            ));
            assert(forward_slashes(o) == o);
            assert(has_drive(o));
            assert(resolved_parts(o) =~= Seq::<Seq<char>>::empty());
            assert(root_prefix(o) =~= o);
            assert(spec_normalize(o) =~= o);
        } else if starts_at_root(t) {
            assert(o =~= seq!['/']);
            assert(path_body(o) =~= Seq::<char>::empty());
            let e1 = seq![Seq::<char>::empty()];
            assert(split_slash(Seq::<char>::empty()) == e1);
            assert(e1.drop_last() =~= Seq::<Seq<char>>::empty());
            assert(resolve_all(e1, true) == resolve_segment(
                resolve_all(e1.drop_last(), true),
                e1.last(),
                true,
            ));
            assert(resolved_parts(o) =~= Seq::<Seq<char>>::empty());
            assert(spec_normalize(o) =~= o);
        } else {
            assert(o =~= seq!['.']);
            assert(path_body(o) =~= seq!['.']);
            assert(lacks(seq!['.'], '/'));
            lemma_split_single(seq!['.']);
            let d1 = seq![seq!['.']];
            assert(d1.drop_last() =~= Seq::<Seq<char>>::empty());
            assert(!has_drive(o) && !starts_at_root(o));
            assert(resolve_all(d1, false) == resolve_segment(
                resolve_all(d1.drop_last(), false),
                d1.last(),
                false,
            ));
            assert(resolved_parts(o) =~= Seq::<Seq<char>>::empty());
            assert(spec_normalize(o) =~= o);
        }
    } else {
        lemma_split_join(parts);
        assert(clean_segment(parts[0]));
        if starts_at_root(t) {
            assert(o =~= seq!['/'] + j);
            assert(path_body(o) =~= j);
            lemma_resolve_clean_fixed(parts, true);
            assert(resolved_parts(o) == parts);
            assert(root_prefix(o) =~= seq!['/']);
        } else if has_drive(t) {
            assert(o =~= seq![t[0], t[1], '/'] + j);
            assert(path_body(o) =~= seq!['/'] + j);
            lemma_split_slash_join(parts);
            lemma_resolve_leading_empty(parts, true);
            lemma_resolve_clean_fixed(parts, true);
            assert(resolved_parts(o) == parts);
            assert(root_prefix(o) =~= seq![t[0], t[1], '/']);
        } else {
            assert(o =~= j);
            let p0 = parts[0];
            assert(lacks(p0, '/'));
            if parts.len() == 1 {
                assert(j == p0);
            } else {
                lemma_join_first(p0, parts.skip(1));
                assert(seq![p0] + parts.skip(1) =~= parts);
            }
            assert(o[0] == p0[0]);
            assert(!starts_at_root(o));
            if has_drive(o) {
                // The canonical form reads as `x:/...`: its first segment is `x:`.
                assert(parts.len() > 1) by {
                    if parts.len() == 1 {
                        assert(o[2] == p0[2]);
                    }
                }
                let rest = parts.skip(1);
                assert(o == p0 + seq!['/'] + join_slash(rest));
                assert(p0.len() == 2) by {
                    if p0.len() > 2 {
                        assert(o[2] == p0[2]);
                    } else if p0.len() == 1 {
                        assert(o[1] == '/');
                    }
                }
                assert(p0 != dot_dot()) by {
                    assert(p0[1] == o[1]);
                }
                assert forall|k: int| 0 <= k < rest.len() implies lacks(#[trigger] rest[k], '/')
                    by {
                    assert(rest[k] == parts[k + 1]);
                }
                assert(clean_parts(rest, true)) by {
                    assert forall|k: int| 0 <= k < rest.len() implies clean_segment(
                        #[trigger] rest[k],
                    ) by {
                        assert(rest[k] == parts[k + 1]);
                    }
                    assert forall|k: int| 0 <= k < rest.len() implies #[trigger] rest[k]
                        != dot_dot() by {
                        assert(rest[k] == parts[k + 1]);
                        if parts[k + 1] == dot_dot() {
                            assert(parts[0] == dot_dot());
                        }
                    }
                    assert forall|a: int, b: int|
                        0 <= a < b < rest.len() && #[trigger] rest[b] == dot_dot() implies #[trigger] rest[a]
                        == dot_dot() by {
                        assert(rest[b] == parts[b + 1]);
                        assert(parts[0] == dot_dot());
                    }
                }
                assert(path_body(o) =~= seq!['/'] + join_slash(rest));
                lemma_split_slash_join(rest);
                lemma_resolve_leading_empty(rest, true);
                lemma_resolve_clean_fixed(rest, true);
                assert(resolved_parts(o) == rest);
                assert(root_prefix(o) =~= p0 + seq!['/']);
                assert(spec_normalize(o) =~= o);
            } else {
                assert(path_body(o) == o);
                lemma_resolve_clean_fixed(parts, false);
                assert(resolved_parts(o) == parts);
                assert(root_prefix(o) =~= Seq::<char>::empty());
                assert(spec_normalize(o) =~= o);
            }
        }
    }
}

/// How a path spells its separators does not matter: `\` and `/` give the
/// same canonical form.
pub proof fn law_normalize_separator_agnostic(s: Seq<char>)
    ensures
        spec_normalize(forward_slashes(s)) == spec_normalize(s),
{
    lemma_forward_slashes_lacks(s);
}

/// A non-empty path and the same path with a segment `e` appended after a
/// separator, where `e` resolves to nothing, have the same root and the
/// same resolved segments.
proof fn lemma_append_vanishing(s: Seq<char>, e: Seq<char>)
    requires
        s.len() > 0,
        e.len() == 0 || e == seq!['.'],
    ensures
        ({
            let t = forward_slashes(s);
            let u = forward_slashes(s + seq!['/'] + e);
            &&& root_prefix(u) == root_prefix(t)
            &&& resolved_parts(s + seq!['/'] + e) == resolved_parts(s)
        }),
{
    let t = forward_slashes(s);
    let u = forward_slashes(s + seq!['/'] + e);
    assert(u =~= t + seq!['/'] + e);
    assert(has_drive(u) == has_drive(t));
    assert(starts_at_root(u) == starts_at_root(t));
    assert(root_prefix(u) =~= root_prefix(t));
    let b = path_body(t);
    if starts_at_root(t) {
        assert(path_body(u) =~= b + seq!['/'] + e);
    } else if has_drive(t) {
        assert(path_body(u) =~= b + seq!['/'] + e);
    } else {
        assert(path_body(u) =~= b + seq!['/'] + e);
    }
    let rooted = starts_at_root(t) || has_drive(t);
    let segs = split_slash(b);
    assert((b + seq!['/']).drop_last() =~= b);
    assert(split_slash(b + seq!['/']) == segs.push(Seq::<char>::empty()));
    if e.len() == 0 {
        assert(b + seq!['/'] + e =~= b + seq!['/']);
    } else {
        let bs = b + seq!['/'];
        assert((bs + e).drop_last() =~= bs);
        assert((bs + e).last() == '.');
        let sp = segs.push(Seq::<char>::empty());
        assert(sp.last().push('.') =~= seq!['.']);
        assert(split_slash(bs + e) =~= segs.push(seq!['.']));
    }
    let last = split_slash(b + seq!['/'] + e).last();
    assert(split_slash(b + seq!['/'] + e) =~= segs.push(last));
    assert(segs.push(last).drop_last() =~= segs);
    assert(resolve_all(segs.push(last), rooted) == resolve_segment(resolve_all(segs, rooted), last, rooted));
}

/// Trailing separators and `.` segments do not matter: a non-empty path
/// followed by `/`, or by `/.`, has the canonical form of the path itself.
pub proof fn law_normalize_ignores_trailing_separator(s: Seq<char>)
    requires
        s.len() > 0,
    ensures
        spec_normalize(s.push('/')) == spec_normalize(s),
        spec_normalize(s + seq!['/', '.']) == spec_normalize(s),
{
    lemma_append_vanishing(s, Seq::<char>::empty());
    assert(s + seq!['/'] + Seq::<char>::empty() =~= s.push('/'));
    lemma_append_vanishing(s, seq!['.']);
    assert(s + seq!['/'] + seq!['.'] =~= s + seq!['/', '.']);
}

/// `s` with every `/` written twice.
pub open spec fn double_slashes(s: Seq<char>) -> Seq<char>
    decreases s.len(),
{
    if s.len() == 0 {
        s
    } else {
        double_slashes(s.drop_last()) + (if s.last() == '/' {
            seq!['/', '/']
        } else {
            seq![s.last()]
        })
    }
}

/// The non-empty segments, in order.
pub open spec fn nonempty_segments(segs: Seq<Seq<char>>) -> Seq<Seq<char>>
    decreases segs.len(),
{
    if segs.len() == 0 {
        segs
    } else {
        let r = nonempty_segments(segs.drop_last());
        if segs.last().len() == 0 {
            r
        } else {
            r.push(segs.last())
        }
    }
}

/// The words of a text: its non-empty pieces between separators.
pub open spec fn words(x: Seq<char>) -> Seq<Seq<char>> {
    nonempty_segments(split_slash(x))
}

proof fn lemma_double_concat(p: Seq<char>, q: Seq<char>)
    ensures
        double_slashes(p + q) == double_slashes(p) + double_slashes(q),
    decreases q.len(),
{
    if q.len() == 0 {
        assert(p + q =~= p);
        assert(double_slashes(p) + double_slashes(q) =~= double_slashes(p));
    } else {
        lemma_double_concat(p, q.drop_last());
        assert((p + q).drop_last() =~= p + q.drop_last());
        assert((p + q).last() == q.last());
        let tail = if q.last() == '/' { seq!['/', '/'] } else { seq![q.last()] };
        assert(double_slashes(p) + double_slashes(q.drop_last()) + tail =~= double_slashes(p) + (
        double_slashes(q.drop_last()) + tail));
    }
}

proof fn lemma_double_lacks(x: Seq<char>)
    requires
        lacks(x, '/'),
    ensures
        double_slashes(x) == x,
    decreases x.len(),
{
    if x.len() > 0 {
        assert(lacks(x.drop_last(), '/'));
        lemma_double_lacks(x.drop_last());
        assert(x.last() == x[x.len() - 1]);
        assert(x.drop_last() + seq![x.last()] =~= x);
    }
}

proof fn lemma_forward_concat(p: Seq<char>, q: Seq<char>)
    ensures
        forward_slashes(p + q) == forward_slashes(p) + forward_slashes(q),
{
    assert(forward_slashes(p + q) =~= forward_slashes(p) + forward_slashes(q));
}

/// Splitting at a separator splits the pieces.
proof fn lemma_split_at_sep(a: Seq<char>, b: Seq<char>)
    ensures
        split_slash(a + seq!['/'] + b) == split_slash(a) + split_slash(b),
    decreases b.len(),
{
    let x = a + seq!['/'] + b;
    if b.len() == 0 {
        assert(x.drop_last() =~= a);
        assert(split_slash(b) =~= seq![Seq::<char>::empty()]);
        assert(split_slash(a).push(Seq::<char>::empty()) =~= split_slash(a) + split_slash(b));
    } else {
        let pre = b.drop_last();
        lemma_split_at_sep(a, pre);
        assert(x.drop_last() =~= a + seq!['/'] + pre);
        assert(x.last() == b.last());
        let sa = split_slash(a);
        let sp = split_slash(pre);
        assert(split_slash(b.drop_last()) == sp);
        if b.last() == '/' {
            assert((sa + sp).push(Seq::<char>::empty()) =~= sa + sp.push(Seq::<char>::empty()));
        } else {
            let r = sa + sp;
            assert(sp.len() >= 1) by {
                lemma_split_nonempty(pre);
            }
            assert(r.update(r.len() - 1, r.last().push(b.last())) =~= sa + sp.update(
                sp.len() - 1,
                sp.last().push(b.last()),
            ));
        }
    }
}

proof fn lemma_split_nonempty(x: Seq<char>)
    ensures
        split_slash(x).len() >= 1,
    decreases x.len(),
{
    if x.len() > 0 {
        lemma_split_nonempty(x.drop_last());
    }
}

proof fn lemma_nonempty_concat(p: Seq<Seq<char>>, q: Seq<Seq<char>>)
    ensures
        nonempty_segments(p + q) == nonempty_segments(p) + nonempty_segments(q),
    decreases q.len(),
{
    if q.len() == 0 {
        assert(p + q =~= p);
        assert(nonempty_segments(q) =~= Seq::<Seq<char>>::empty());
        assert(nonempty_segments(p) + nonempty_segments(q) =~= nonempty_segments(p));
    } else {
        lemma_nonempty_concat(p, q.drop_last());
        assert((p + q).drop_last() =~= p + q.drop_last());
        assert((p + q).last() == q.last());
        let np = nonempty_segments(p);
        let nq = nonempty_segments(q.drop_last());
        assert((np + nq).push(q.last()) =~= np + nq.push(q.last()));
    }
}

/// Empty segments change nothing in resolution.
proof fn lemma_resolve_nonempty(segs: Seq<Seq<char>>, rooted: bool)
    ensures
        resolve_all(segs, rooted) == resolve_all(nonempty_segments(segs), rooted),
    decreases segs.len(),
{
    if segs.len() > 0 {
        lemma_resolve_nonempty(segs.drop_last(), rooted);
        let r = nonempty_segments(segs.drop_last());
        if segs.last().len() > 0 {
            assert(r.push(segs.last()).drop_last() =~= r);
        }
    }
}

/// The words of `a/b` are those of `a` and then those of `b`.
proof fn lemma_words_at_sep(a: Seq<char>, b: Seq<char>)
    ensures
        words(a + seq!['/'] + b) == words(a) + words(b),
{
    lemma_split_at_sep(a, b);
    lemma_nonempty_concat(split_slash(a), split_slash(b));
}

proof fn lemma_words_empty()
    ensures
        words(Seq::<char>::empty()) == Seq::<Seq<char>>::empty(),
{
    let e = seq![Seq::<char>::empty()];
    assert(split_slash(Seq::<char>::empty()) == e);
    assert(e.drop_last() =~= Seq::<Seq<char>>::empty());
    assert(e.last().len() == 0);
    assert(nonempty_segments(Seq::<Seq<char>>::empty()) == Seq::<Seq<char>>::empty());
    assert(nonempty_segments(e) == nonempty_segments(e.drop_last()));
}

proof fn lemma_double_sep()
    ensures
        double_slashes(seq!['/']) == seq!['/', '/'],
{
    let one = seq!['/'];
    assert(one.drop_last() =~= Seq::<char>::empty());
    assert(double_slashes(Seq::<char>::empty()) == Seq::<char>::empty());
    assert(one.last() == '/');
    assert(double_slashes(one) == double_slashes(one.drop_last()) + seq!['/', '/']);
    assert(Seq::<char>::empty() + seq!['/', '/'] =~= seq!['/', '/']);
}

/// A leading separator adds no word.
proof fn lemma_words_leading_sep(y: Seq<char>)
    ensures
        words(seq!['/'] + y) == words(y),
{
    lemma_words_at_sep(Seq::<char>::empty(), y);
    assert(Seq::<char>::empty() + seq!['/'] + y =~= seq!['/'] + y);
    lemma_words_empty();
    assert(Seq::<Seq<char>>::empty() + words(y) =~= words(y));
}

/// The last separator of a text that has one.
proof fn lemma_last_sep(x: Seq<char>) -> (i: int)
    requires
        !lacks(x, '/'),
    ensures
        0 <= i < x.len(),
        x[i] == '/',
        lacks(x.skip(i + 1), '/'),
    decreases x.len(),
{
    if x.last() == '/' {
        assert(x.skip(x.len() as int) =~= Seq::<char>::empty());
        x.len() - 1
    } else {
        let y = x.drop_last();
        assert(!lacks(y, '/')) by {
            let k = choose|k: int| 0 <= k < x.len() && x[k] == '/';
            assert(k < x.len() - 1);
            assert(y[k] == '/');
        }
        let i = lemma_last_sep(y);
        assert(x.skip(i + 1) =~= y.skip(i + 1).push(x.last()));
        i
    }
}

/// After any prefix, doubling the separators of a text keeps its words.
proof fn lemma_words_doubled(z: Seq<char>, x: Seq<char>)
    ensures
        words(z + forward_slashes(double_slashes(x))) == words(z + forward_slashes(x)),
    decreases x.len(),
{
    if lacks(x, '/') {
        lemma_double_lacks(x);
    } else {
        let i = lemma_last_sep(x);
        let a = x.take(i);
        let b = x.skip(i + 1);
        assert(x =~= a + seq!['/'] + b);
        lemma_double_concat(a + seq!['/'], b);
        lemma_double_concat(a, seq!['/']);
        lemma_double_lacks(b);
        lemma_double_sep();
        let da = double_slashes(a);
        assert(double_slashes(x) == da + seq!['/', '/'] + b);
        lemma_forward_concat(da + seq!['/', '/'], b);
        lemma_forward_concat(da, seq!['/', '/']);
        assert(forward_slashes(seq!['/', '/']) =~= seq!['/', '/']);
        let fa2 = forward_slashes(da);
        let fb = forward_slashes(b);
        assert(z + forward_slashes(double_slashes(x)) =~= (z + fa2) + seq!['/'] + (seq!['/'] + fb));
        lemma_words_at_sep(z + fa2, seq!['/'] + fb);
        lemma_words_leading_sep(fb);
        lemma_words_doubled(z, a);
        lemma_forward_concat(a + seq!['/'], b);
        lemma_forward_concat(a, seq!['/']);
        assert(forward_slashes(seq!['/']) =~= seq!['/']);
        let fa = forward_slashes(a);
        assert(z + forward_slashes(x) =~= (z + fa) + seq!['/'] + fb);
        lemma_words_at_sep(z + fa, fb);
    }
}

/// Two texts with the same words resolve alike.
proof fn lemma_same_words_resolve(b1: Seq<char>, b2: Seq<char>, rooted: bool)
    requires
        words(b1) == words(b2),
    ensures
        resolve_all(split_slash(b1), rooted) == resolve_all(split_slash(b2), rooted),
{
    lemma_resolve_nonempty(split_slash(b1), rooted);
    lemma_resolve_nonempty(split_slash(b2), rooted);
}

/// Doubled separators do not matter: writing every `/` of a path twice
/// gives the same canonical form.
pub proof fn law_normalize_ignores_doubled_separators(s: Seq<char>)
    ensures
        spec_normalize(double_slashes(s)) == spec_normalize(s),
{
    if s.len() == 0 {
        return;
    }
    let t = forward_slashes(s);
    let d = double_slashes(s);
    let t2 = forward_slashes(d);
    let n: int = if s[0] == '/' {
        0
    } else if s.len() == 1 || s[1] == '/' {
        1
    } else {
        2
    };
    let p = s.take(n);
    let q = s.skip(n);
    assert(s =~= p + q);
    lemma_double_concat(p, q);
    lemma_forward_concat(p, q);
    let fq = forward_slashes(q);
    let fdq = forward_slashes(double_slashes(q));
    if n == 0 {
        // s = "/" + rest
        let rest = s.skip(1);
        assert(s =~= seq!['/'] + rest);
        lemma_double_concat(seq!['/'], rest);
        lemma_double_sep();
        lemma_forward_concat(seq!['/'], rest);
        lemma_forward_concat(seq!['/', '/'], double_slashes(rest));
        assert(forward_slashes(seq!['/']) =~= seq!['/']);
        assert(forward_slashes(seq!['/', '/']) =~= seq!['/', '/']);
        let fr = forward_slashes(rest);
        let fdr = forward_slashes(double_slashes(rest));
        assert(t == seq!['/'] + fr);
        assert(t2 == seq!['/', '/'] + fdr);
        assert(!has_drive(t) && !has_drive(t2));
        assert(starts_at_root(t) && starts_at_root(t2));
        assert(root_prefix(t) =~= root_prefix(t2));
        assert(path_body(t) =~= fr);
        assert(path_body(t2) =~= seq!['/'] + fdr);
        lemma_words_leading_sep(fdr);
        lemma_words_doubled(Seq::<char>::empty(), rest);
        assert(Seq::<char>::empty() + fdr =~= fdr);
        assert(Seq::<char>::empty() + fr =~= fr);
        lemma_same_words_resolve(path_body(t), path_body(t2), true);
    } else {
        assert(lacks(p, '/'));
        lemma_double_lacks(p);
        let fp = forward_slashes(p);
        assert(t == fp + fq);
        assert(t2 == fp + fdq);
        if n == 1 && s.len() > 1 {
            // the second character is a separator, in both texts
            assert(q[0] == '/');
            assert(q =~= seq!['/'] + q.skip(1));
            lemma_double_concat(seq!['/'], q.skip(1));
            lemma_double_sep();
            assert(double_slashes(q)[0] == '/');
            assert(t[1] == '/');
            assert(t2[1] == '/');
        }
        if n == 1 && s.len() == 1 {
            assert(q =~= Seq::<char>::empty());
            assert(double_slashes(q) =~= Seq::<char>::empty());
            assert(t2 =~= t);
        }
        assert(t.len() >= 1 && t2.len() >= 1);
        assert(t[0] == t2[0]);
        assert(has_drive(t) == has_drive(t2));
        assert(starts_at_root(t) == starts_at_root(t2));
        assert(root_prefix(t) =~= root_prefix(t2));
        let z = if starts_at_root(t) {
            fp.skip(1)
        } else if has_drive(t) {
            fp.skip(2)
        } else {
            fp
        };
        if has_drive(t) && !starts_at_root(t) {
            assert(n == 2);
        }
        assert(path_body(t) =~= z + fq);
        assert(path_body(t2) =~= z + fdq);
        lemma_words_doubled(z, q);
        lemma_same_words_resolve(
            path_body(t),
            path_body(t2),
            starts_at_root(t) || has_drive(t),
        );
    }
    assert(resolved_parts(d) == resolved_parts(s));
}

proof fn lemma_split_lacks_any(s: Seq<char>, c: char)
    requires
        lacks(s, c),
    ensures
        forall|k: int| 0 <= k < split_slash(s).len() ==> lacks(#[trigger] split_slash(s)[k], c),
{
    lemma_split_lacks(s, c);
}

proof fn lemma_resolve_lacks(segs: Seq<Seq<char>>, rooted: bool, c: char)
    requires
        c != '.',
        forall|k: int| 0 <= k < segs.len() ==> lacks(#[trigger] segs[k], c),
    ensures
        forall|k: int|
            0 <= k < resolve_all(segs, rooted).len() ==> lacks(#[trigger] resolve_all(segs, rooted)[k], c),
    decreases segs.len(),
{
    if segs.len() > 0 {
        let init = segs.drop_last();
        assert forall|k: int| 0 <= k < init.len() implies lacks(#[trigger] init[k], c) by {
            assert(init[k] == segs[k]);
        }
        lemma_resolve_lacks(init, rooted, c);
        let parts = resolve_all(init, rooted);
        let seg = segs.last();
        assert(lacks(segs[segs.len() - 1], c));
        let r = resolve_all(segs, rooted);
        assert(r == resolve_segment(parts, seg, rooted));
        assert forall|k: int| 0 <= k < r.len() implies lacks(#[trigger] r[k], c) by {
            if k < parts.len() {
                assert(r[k] == parts[k]);
            } else {
                assert(r[k] == seg);
            }
        }
    }
}

proof fn lemma_join_lacks_any(parts: Seq<Seq<char>>, c: char)
    requires
        c != '/',
        forall|k: int| 0 <= k < parts.len() ==> lacks(#[trigger] parts[k], c),
    ensures
        lacks(join_slash(parts), c),
    decreases parts.len(),
{
    if parts.len() > 1 {
        let init = parts.drop_last();
        assert forall|k: int| 0 <= k < init.len() implies lacks(#[trigger] init[k], c) by {
            assert(init[k] == parts[k]);
        }
        lemma_join_lacks_any(init, c);
        let j = join_slash(parts);
        let a = join_slash(init);
        let b = parts.last();
        assert(lacks(parts[parts.len() - 1], c));
        assert(j == a + seq!['/'] + b);
        assert forall|i: int| 0 <= i < j.len() implies j[i] != c by {
            if i < a.len() {
                assert(j[i] == a[i]);
            } else if i > a.len() {
                assert(j[i] == b[i - a.len() - 1]);
            }
        }
    } else if parts.len() == 1 {
        assert(lacks(parts[0], c));
    }
}

/// Normalizing twice gives what normalizing once gives, for every path
/// that has no `:` or that starts with a drive (`C:`).
pub proof fn law_normalize_idempotent_without_stray_colon(s: Seq<char>)
    requires
        lacks(s, ':') || has_drive(s),
    ensures
        spec_normalize(spec_normalize(s)) == spec_normalize(s),
{
    let t = forward_slashes(s);
    let o = spec_normalize(s);
    if has_drive(s) {
        assert(has_drive(t));
        assert(root_prefix(t) =~= seq![t[0], t[1], '/']);
        assert(o.len() > 2 && o[2] == '/');
    } else {
        assert(lacks(t, ':'));
        let body = path_body(t);
        assert(lacks(body, ':')) by {
            assert forall|i: int| 0 <= i < body.len() implies body[i] != ':' by {
                if starts_at_root(t) {
                    assert(body[i] == t[i + 1]);
                } else if has_drive(t) {
                    assert(body[i] == t[i + 2]);
                }
            }
        }
        lemma_split_lacks_any(body, ':');
        let rooted = starts_at_root(t) || has_drive(t);
        lemma_resolve_lacks(split_slash(body), rooted, ':');
        lemma_join_lacks_any(resolved_parts(s), ':');
        let j = join_slash(resolved_parts(s));
        assert(!has_drive(t)) by {
            if t.len() >= 2 {
                assert(t[1] != ':');
            }
        }
        if o.len() >= 2 {
            if starts_at_root(t) {
                assert(o[0] == '/');
            } else {
                assert(root_prefix(t) =~= Seq::<char>::empty());
                assert(o =~= j);
                assert(o[1] != ':');
            }
        }
        assert(!has_drive(o));
    }
    law_normalize_idempotent(s);
}

} // verus!
