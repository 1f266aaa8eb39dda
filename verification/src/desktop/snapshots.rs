//! Snapshot files in the settings view, newest first.

use vstd::prelude::*;

use crate::desktop::dto::SnapshotInfoDto;
use crate::text::chars_of;

verus! {

broadcast use vstd::seq_lib::group_to_multiset_ensures;

/// Whether text `a` sorts before text `b`: character by character, by code
/// point, a proper prefix first (the order of `String`'s comparison).
pub open spec fn text_lt(a: Seq<char>, b: Seq<char>) -> bool
    decreases a.len(),
{
    if a.len() == 0 {
        b.len() > 0
    } else if b.len() == 0 {
        false
    } else if a[0] != b[0] {
        (a[0] as int) < (b[0] as int)
    } else {
        text_lt(a.drop_first(), b.drop_first())
    }
}

/// Nothing sorts before itself, and of two texts at most one sorts first.
pub proof fn lemma_text_lt_asymmetric(a: Seq<char>, b: Seq<char>)
    ensures
        !text_lt(a, a),
        text_lt(a, b) ==> !text_lt(b, a),
    decreases a.len(),
{
    if a.len() > 0 {
        lemma_text_lt_asymmetric(a.drop_first(), a.drop_first());
        if b.len() > 0 && a[0] == b[0] {
            lemma_text_lt_asymmetric(a.drop_first(), b.drop_first());
        }
    }
}

/// Sorting before is transitive.
pub proof fn lemma_text_lt_transitive(a: Seq<char>, b: Seq<char>, c: Seq<char>)
    requires
        text_lt(a, b),
        text_lt(b, c),
    ensures
        text_lt(a, c),
    decreases a.len(),
{
    if a.len() > 0 && b.len() > 0 && c.len() > 0 && a[0] == b[0] && b[0] == c[0] {
        lemma_text_lt_transitive(a.drop_first(), b.drop_first(), c.drop_first());
    }
}

/// Of two different texts, one sorts before the other.
pub proof fn lemma_text_lt_total(a: Seq<char>, b: Seq<char>)
    ensures
        a == b || text_lt(a, b) || text_lt(b, a),
    decreases a.len(),
{
    if a.len() > 0 && b.len() > 0 && a[0] == b[0] {
        lemma_text_lt_total(a.drop_first(), b.drop_first());
        if a.drop_first() == b.drop_first() {
            assert(a =~= seq![a[0]] + a.drop_first());
            assert(b =~= seq![b[0]] + b.drop_first());
        }
    } else if a.len() == 0 && b.len() == 0 {
        assert(a =~= b);
    }
}

/// Whether `a` sorts before `b`.
pub fn text_less(a: &str, b: &str) -> (r: bool)
    ensures
        r == text_lt(a@, b@),
{
    let x = chars_of(a);
    let y = chars_of(b);
    let mut i: usize = 0;
    proof {
        assert(x@.subrange(0, x@.len() as int) =~= x@);
        assert(y@.subrange(0, y@.len() as int) =~= y@);
    }
    while i < x.len() && i < y.len() && x[i] == y[i]
        invariant
            i <= x@.len(),
            i <= y@.len(),
            text_lt(a@, b@) == text_lt(x@.subrange(i as int, x@.len() as int), y@.subrange(i as int, y@.len() as int)),
            x@ == a@,
            y@ == b@,
        decreases x@.len() - i,
    {
        proof {
            let xs = x@.subrange(i as int, x@.len() as int);
            let ys = y@.subrange(i as int, y@.len() as int);
            assert(xs.drop_first() =~= x@.subrange(i + 1, x@.len() as int));
            assert(ys.drop_first() =~= y@.subrange(i + 1, y@.len() as int));
        }
        i = i + 1;
    }
    if i == x.len() {
        i < y.len()
    } else if i == y.len() {
        false
    } else {
        proof {
            assert(x@.subrange(i as int, x@.len() as int)[0] == x@[i as int]);
            assert(y@.subrange(i as int, y@.len() as int)[0] == y@[i as int]);
        }
        x[i] < y[i]
    }
}

/// Newest first: no snapshot sorts before a later one by modification
/// time.
pub open spec fn newest_first(s: Seq<SnapshotInfoDto>) -> bool {
    forall|i: int, j: int|
        0 <= i < j < s.len() ==> !text_lt(#[trigger] s[i].modified_at@, #[trigger] s[j].modified_at@)
}

/// `x` placed into newest-first `s` after every snapshot that is not
/// older than it.
pub open spec fn insert_by_age(s: Seq<SnapshotInfoDto>, x: SnapshotInfoDto) -> Seq<SnapshotInfoDto>
    decreases s.len(),
{
    if s.len() == 0 {
        seq![x]
    } else if text_lt(s.last().modified_at@, x.modified_at@) {
        insert_by_age(s.drop_last(), x).push(s.last())
    } else {
        s.push(x)
    }
}

/// The stable newest-first order: each snapshot, in input order, placed
/// after every one already placed that is not older than it. Snapshots
/// with equal times keep their input order.
pub open spec fn by_age(s: Seq<SnapshotInfoDto>) -> Seq<SnapshotInfoDto>
    decreases s.len(),
{
    if s.len() == 0 {
        s
    } else {
        insert_by_age(by_age(s.drop_last()), s.last())
    }
}

/// The snapshots sorted newest first by modification time (RFC 3339 texts
/// compared as text), keeping every one of them, and keeping snapshots of
/// equal time in their input order.
pub fn sort_newest_first(v: Vec<SnapshotInfoDto>) -> (r: Vec<SnapshotInfoDto>)
    ensures
        r@ == by_age(v@),
        r@.to_multiset() == v@.to_multiset(),
        newest_first(r@),
{
    let ghost all = v@;
    let mut rest = v;
    let mut out: Vec<SnapshotInfoDto> = Vec::new();
    let ghost mut done: int = 0;
    assert(all.take(0) =~= Seq::<SnapshotInfoDto>::empty());
    assert(all.subrange(0, all.len() as int) =~= all);
    while rest.len() > 0
        invariant
            out@.to_multiset().add(rest@.to_multiset()) == all.to_multiset(),
            newest_first(out@),
            0 <= done <= all.len(),
            rest@ == all.subrange(done, all.len() as int),
            out@ == by_age(all.take(done)),
        decreases rest@.len(),
    {
        let ghost before_rest = rest@;
        let x = rest.remove(0);
        proof {
            assert(before_rest.to_multiset() == rest@.to_multiset().insert(x)) by {
                assert(before_rest.remove(0) =~= rest@);
            }
            assert(x == all[done]);
            assert(rest@ =~= all.subrange(done + 1, all.len() as int));
            assert(all.take(done + 1).drop_last() =~= all.take(done));
            assert(all.take(done + 1).last() == x);
        }
        let mut p: usize = out.len();
        assert(out@.take(out@.len() as int) =~= out@);
        assert(out@.subrange(out@.len() as int, out@.len() as int) =~= Seq::<SnapshotInfoDto>::empty());
        while p > 0 && text_less(out[p - 1].modified_at.as_str(), x.modified_at.as_str())
            invariant
                p <= out@.len(),
                newest_first(out@),
                forall|k: int| p <= k < out@.len() ==> text_lt(#[trigger] out@[k].modified_at@, x.modified_at@),
                insert_by_age(out@, x) == insert_by_age(out@.take(p as int), x) + out@.subrange(
                    p as int,
                    out@.len() as int,
                ),
            decreases p,
        {
            proof {
                let t = out@.take(p as int);
                assert(t.drop_last() =~= out@.take(p - 1));
                assert(t.last() == out@[p - 1]);
                assert(insert_by_age(t, x) == insert_by_age(out@.take(p - 1), x).push(out@[p - 1]));
                assert(insert_by_age(out@.take(p - 1), x).push(out@[p - 1]) + out@.subrange(
                    p as int,
                    out@.len() as int,
                ) =~= insert_by_age(out@.take(p - 1), x) + out@.subrange(p - 1, out@.len() as int));
            }
            p = p - 1;
        }
        let ghost old_out = out@;
        proof {
            assert forall|k: int| 0 <= k < p implies !text_lt(#[trigger] old_out[k].modified_at@, x.modified_at@) by {
                let last = old_out[p - 1].modified_at@;
                let xk = x.modified_at@;
                let ok = old_out[k].modified_at@;
                if text_lt(ok, xk) {
                    if k < p - 1 {
                        assert(!text_lt(ok, last));
                        lemma_text_lt_total(ok, last);
                        if text_lt(last, ok) {
                            lemma_text_lt_transitive(last, ok, xk);
                        }
                    }
                }
            }
        }
        out.insert(p, x);
        proof {
            let n = out@;
            assert forall|i: int, j: int| 0 <= i < j < n.len() implies !text_lt(#[trigger] n[i].modified_at@, #[trigger] n[j].modified_at@) by {
                if j < p {
                    assert(n[i] == old_out[i] && n[j] == old_out[j]);
                } else if j == p {
                    assert(n[i] == old_out[i]);
                } else if i < p {
                    assert(n[i] == old_out[i] && n[j] == old_out[j - 1]);
                    let a = n[i].modified_at@;
                    let b = n[j].modified_at@;
                    let xk = x.modified_at@;
                    assert(!text_lt(a, xk));
                    assert(text_lt(b, xk));
                    if text_lt(a, b) {
                        lemma_text_lt_transitive(a, b, xk);
                    }
                } else if i == p {
                    assert(n[j] == old_out[j - 1]);
                    lemma_text_lt_asymmetric(n[j].modified_at@, x.modified_at@);
                } else {
                    assert(n[i] == old_out[i - 1] && n[j] == old_out[j - 1]);
                }
            }
            assert(old_out.insert(p as int, x) == n);
            if p == 0 {
                assert(old_out.take(0) =~= Seq::<SnapshotInfoDto>::empty());
                assert(seq![x] + old_out.subrange(0, old_out.len() as int) =~= n);
            } else {
                let t = old_out.take(p as int);
                assert(t.last() == old_out[p - 1]);
                assert(insert_by_age(t, x) == t.push(x));
                assert(t.push(x) + old_out.subrange(p as int, old_out.len() as int) =~= n);
            }
            assert(n == insert_by_age(old_out, x));
            done = done + 1;
        }
    }
    proof {
        assert(rest@ =~= Seq::<SnapshotInfoDto>::empty());
        assert(done == all.len());
        assert(all.take(done) =~= all);
        assert(out@.to_multiset().add(vstd::multiset::Multiset::empty()) =~= out@.to_multiset());
    }
    out
}

} // verus!
