//! Character-level string helpers with exact contracts.

use vstd::prelude::*;

verus! {

broadcast use vstd::string::group_string_axioms;

/// `String::push` appends one character.
pub assume_specification[ String::push ](s: &mut String, ch: char)
    ensures
        final(s)@ == old(s)@.push(ch),
;

/// The characters of `s`, in order.
pub fn chars_of(s: &str) -> (v: Vec<char>)
    ensures
        v@ == s@,
{
    let mut v: Vec<char> = Vec::new();
    for c in it: s.chars()
        invariant
            v@ == it.seq().take(it.index() as int),
    {
        v.push(c);
    }
    v
}

/// A string holding exactly the characters of `v`.
pub fn string_of(v: &Vec<char>) -> (s: String)
    ensures
        s@ == v@,
{
    let mut s = String::new();
    let mut i: usize = 0;
    while i < v.len()
        invariant
            i <= v.len(),
            s@ == v@.take(i as int),
        decreases v.len() - i,
    {
        s.push(v[i]);
        i = i + 1;
    }
    s
}

} // verus!

verus! {

/// Whether two strings hold the same characters.
pub fn str_eq(a: &str, b: &str) -> (r: bool)
    ensures
        r == (a@ == b@),
{
    let x = chars_of(a);
    let y = chars_of(b);
    if x.len() != y.len() {
        return false;
    }
    let mut i: usize = 0;
    while i < x.len()
        invariant
            x@ == a@,
            y@ == b@,
            x.len() == y.len(),
            i <= x.len(),
            forall|j: int| 0 <= j < i ==> x@[j] == y@[j],
        decreases x.len() - i,
    {
        if x[i] != y[i] {
            return false;
        }
        i = i + 1;
    }
    assert(x@ =~= y@);
    true
}

} // verus!

verus! {

/// `p` is a prefix of `s`.
pub open spec fn is_prefix(p: Seq<char>, s: Seq<char>) -> bool {
    p.len() <= s.len() && s.take(p.len() as int) == p
}

/// `needle` stands in `s` at position `i`.
pub open spec fn occurs_at(needle: Seq<char>, s: Seq<char>, i: int) -> bool {
    0 <= i && i + needle.len() <= s.len() && s.subrange(i, i + needle.len()) == needle
}

/// `needle` occurs somewhere in `s`.
pub open spec fn occurs_in(needle: Seq<char>, s: Seq<char>) -> bool {
    exists|i: int| #[trigger] occurs_at(needle, s, i)
}

/// Whether `p` is a prefix of `s` (both as character vectors).
pub fn chars_start_with(s: &Vec<char>, p: &Vec<char>) -> (r: bool)
    ensures
        r == is_prefix(p@, s@),
{
    if p.len() > s.len() {
        return false;
    }
    let mut i: usize = 0;
    while i < p.len()
        invariant
            p.len() <= s.len(),
            i <= p.len(),
            forall|j: int| 0 <= j < i ==> s@[j] == p@[j],
        decreases p.len() - i,
    {
        if s[i] != p[i] {
            assert(s@.take(p.len() as int)[i as int] != p@[i as int]);
            return false;
        }
        i = i + 1;
    }
    assert(s@.take(p.len() as int) =~= p@);
    true
}

/// Whether `needle` occurs in `s` at position `at` (character vectors).
fn chars_match_at(s: &Vec<char>, needle: &Vec<char>, at: usize) -> (r: bool)
    requires
        at + needle.len() <= s.len(),
    ensures
        r == (s@.subrange(at as int, at + needle.len()) == needle@),
{
    let mut i: usize = 0;
    while i < needle.len()
        invariant
            at + needle.len() <= s.len(),
            i <= needle.len(),
            forall|j: int| 0 <= j < i ==> s@[at + j] == needle@[j],
        decreases needle.len() - i,
    {
        if s[at + i] != needle[i] {
            assert(s@.subrange(at as int, at + needle.len())[i as int] != needle@[i as int]);
            return false;
        }
        i = i + 1;
    }
    assert(s@.subrange(at as int, at + needle.len()) =~= needle@);
    true
}

/// Whether `needle` occurs in `s` (character vectors).
pub fn chars_contain(s: &Vec<char>, needle: &Vec<char>) -> (r: bool)
    ensures
        r == occurs_in(needle@, s@),
{
    if needle.len() > s.len() {
        assert forall|k: int| !#[trigger] occurs_at(needle@, s@, k) by {}
        return false;
    }
    let last = s.len() - needle.len();
    let mut at: usize = 0;
    while at <= last
        invariant
            last + needle.len() == s.len(),
            at <= last + 1,
            forall|k: int| 0 <= k < at ==> !#[trigger] occurs_at(needle@, s@, k),
        decreases last + 1 - at,
    {
        if chars_match_at(s, needle, at) {
            assert(occurs_at(needle@, s@, at as int));
            return true;
        }
        if at == last {
            assert forall|k: int| !#[trigger] occurs_at(needle@, s@, k) by {
                if 0 <= k <= at {
                }
            }
            return false;
        }
        at = at + 1;
    }
    assert forall|k: int| !#[trigger] occurs_at(needle@, s@, k) by {
        if 0 <= k < at {
        }
    }
    false
}

/// Whether `s` starts with `p`.
pub fn starts_with(s: &str, p: &str) -> (r: bool)
    ensures
        r == is_prefix(p@, s@),
{
    chars_start_with(&chars_of(s), &chars_of(p))
}

/// Whether `needle` occurs in `s`.
pub fn contains(s: &str, needle: &str) -> (r: bool)
    ensures
        r == occurs_in(needle@, s@),
{
    chars_contain(&chars_of(s), &chars_of(needle))
}

/// `a` followed by `b`.
pub fn concat(a: &str, b: &str) -> (r: String)
    ensures
        r@ == a@ + b@,
{
    let mut v = chars_of(a);
    let w = chars_of(b);
    let mut i: usize = 0;
    let ghost start = v@;
    while i < w.len()
        invariant
            i <= w.len(),
            start == a@,
            w@ == b@,
            v@ == start + w@.take(i as int),
        decreases w.len() - i,
    {
        v.push(w[i]);
        i = i + 1;
        assert(v@ =~= start + w@.take(i as int));
    }
    assert(w@.take(w.len() as int) =~= w@);
    string_of(&v)
}

/// What `str::to_lowercase` gives for a text (the Unicode lowercase mapping).
pub uninterp spec fn spec_to_lowercase(s: Seq<char>) -> Seq<char>;

/// What `str::to_uppercase` gives for a text (the Unicode uppercase mapping).
pub uninterp spec fn spec_to_uppercase(s: Seq<char>) -> Seq<char>;

/// Whether a character is Unicode `White_Space` (what `char::is_whitespace`
/// answers): the controls U+0009 to U+000D, space, U+0085, no-break space,
/// U+1680, U+2000 to U+200A, the line and paragraph separators, U+202F,
/// U+205F and U+3000.
pub open spec fn spec_is_whitespace(c: char) -> bool {
    let n = c as u32;
    ||| 0x9 <= n <= 0xD
    ||| n == 0x20
    ||| n == 0x85
    ||| n == 0xA0
    ||| n == 0x1680
    ||| 0x2000 <= n <= 0x200A
    ||| n == 0x2028
    ||| n == 0x2029
    ||| n == 0x202F
    ||| n == 0x205F
    ||| n == 0x3000
}

/// Calls `str::to_lowercase`; its result is the named lowercase mapping of
/// the argument, whose table is not restated here.
#[verifier::external_body]
pub(crate) fn to_lowercase(s: &str) -> (r: String)
    ensures
        r@ == spec_to_lowercase(s@),
{
    s.to_lowercase()
}

/// Calls `str::to_uppercase`; its result is the named uppercase mapping of
/// the argument, whose table is not restated here.
#[verifier::external_body]
pub(crate) fn to_uppercase(s: &str) -> (r: String)
    ensures
        r@ == spec_to_uppercase(s@),
{
    s.to_uppercase()
}

/// Whether a character is Unicode whitespace.
pub fn is_whitespace(c: char) -> (r: bool)
    ensures
        r == spec_is_whitespace(c),
{
    ('\u{9}' <= c && c <= '\u{d}') || c == ' ' || c == '\u{85}' || c == '\u{a0}' || c == '\u{1680}'
        || ('\u{2000}' <= c && c <= '\u{200a}') || c == '\u{2028}' || c == '\u{2029}' || c
        == '\u{202f}' || c == '\u{205f}' || c == '\u{3000}'
}

/// `s` without its leading whitespace.
pub open spec fn trim_start_spec(s: Seq<char>) -> Seq<char>
    decreases s.len(),
{
    if s.len() > 0 && spec_is_whitespace(s[0]) {
        trim_start_spec(s.skip(1))
    } else {
        s
    }
}

/// `s` without its trailing whitespace.
pub open spec fn trim_end_spec(s: Seq<char>) -> Seq<char>
    decreases s.len(),
{
    if s.len() > 0 && spec_is_whitespace(s.last()) {
        trim_end_spec(s.drop_last())
    } else {
        s
    }
}

/// `s` without leading and trailing whitespace.
pub open spec fn trim_spec(s: Seq<char>) -> Seq<char> {
    trim_end_spec(trim_start_spec(s))
}

/// `s` without leading and trailing whitespace (as `str::trim`).
pub fn trim(s: &str) -> (r: String)
    ensures
        r@ == trim_spec(s@),
{
    let v = chars_of(s);
    let mut lo: usize = 0;
    assert(v@.skip(0) =~= v@);
    while lo < v.len() && is_whitespace(v[lo])
        invariant
            v@ == s@,
            lo <= v.len(),
            trim_start_spec(s@) == trim_start_spec(v@.skip(lo as int)),
        decreases v.len() - lo,
    {
        assert(v@.skip(lo as int).skip(1) =~= v@.skip(lo + 1));
        lo = lo + 1;
    }
    let ghost mid = v@.skip(lo as int);
    assert(trim_start_spec(s@) == mid);
    let mut hi: usize = v.len();
    while hi > lo && is_whitespace(v[hi - 1])
        invariant
            v@ == s@,
            lo <= hi <= v.len(),
            mid == v@.skip(lo as int),
            trim_end_spec(mid) == trim_end_spec(v@.subrange(lo as int, hi as int)),
        decreases hi - lo,
    {
        assert(v@.subrange(lo as int, hi as int).drop_last() =~= v@.subrange(lo as int, hi - 1));
        hi = hi - 1;
    }
    let mut out: Vec<char> = Vec::new();
    let mut i: usize = lo;
    while i < hi
        invariant
            lo <= i <= hi,
            hi <= v.len(),
            out@ == v@.subrange(lo as int, i as int),
        decreases hi - i,
    {
        out.push(v[i]);
        i = i + 1;
        assert(out@ =~= v@.subrange(lo as int, i as int));
    }
    assert(mid =~= v@.subrange(lo as int, v.len() as int));
    string_of(&out)
}

/// The decimal digit character for `d < 10`.
pub open spec fn digit_char(d: nat) -> char {
    (48 + d) as char
}

/// The decimal spelling of `n`.
pub open spec fn decimal(n: nat) -> Seq<char>
    decreases n,
{
    if n < 10 {
        seq![digit_char(n)]
    } else {
        decimal(n / 10).push(digit_char(n % 10))
    }
}

fn push_decimal(out: &mut Vec<char>, n: u64)
    ensures
        final(out)@ == old(out)@ + decimal(n as nat),
    decreases n,
{
    if n >= 10 {
        push_decimal(out, n / 10);
    }
    let d = (n % 10) as u8;
    out.push((48u8 + d) as char);
    assert(out@ =~= old(out)@ + decimal(n as nat));
}

/// The decimal spelling of `n`.
pub fn decimal_string(n: u64) -> (r: String)
    ensures
        r@ == decimal(n as nat),
{
    let mut v: Vec<char> = Vec::new();
    push_decimal(&mut v, n);
    assert(v@ =~= decimal(n as nat));
    string_of(&v)
}

} // verus!

verus! {

/// Append the lowercase hexadecimal spelling of `n`.
pub fn push_hex(out: &mut Vec<char>, n: u64)
    ensures
        final(out)@ == old(out)@ + crate::model::error::hex(n as nat),
    decreases n,
{
    if n >= 16 {
        push_hex(out, n / 16);
    }
    let d = (n % 16) as u8;
    if d < 10 {
        out.push((48u8 + d) as char);
    } else {
        out.push((87u8 + d) as char);
    }
    assert(out@ =~= old(out)@ + crate::model::error::hex(n as nat));
}

} // verus!

verus! {

/// The parts joined with `sep` between each two.
pub open spec fn spec_join_with(parts: Seq<Seq<char>>, sep: Seq<char>) -> Seq<char>
    decreases parts.len(),
{
    if parts.len() == 0 {
        Seq::empty()
    } else if parts.len() == 1 {
        parts[0]
    } else {
        spec_join_with(parts.drop_last(), sep) + sep + parts.last()
    }
}

/// The texts of a list of strings.
pub open spec fn string_views(v: Seq<String>) -> Seq<Seq<char>> {
    v.map_values(|s: String| s@)
}

/// The strings joined with `sep` between each two.
pub fn join_with(parts: &Vec<String>, sep: &str) -> (r: String)
    ensures
        r@ == spec_join_with(string_views(parts@), sep@),
{
    let mut out = String::new();
    let mut i: usize = 0;
    while i < parts.len()
        invariant
            i <= parts@.len(),
            out@ == spec_join_with(string_views(parts@.take(i as int)), sep@),
        decreases parts@.len() - i,
    {
        let ghost before = string_views(parts@.take(i as int));
        proof {
            assert(string_views(parts@.take(i + 1)).drop_last() =~= before);
            assert(string_views(parts@.take(i + 1)).last() == parts@[i as int]@);
        }
        if i == 0 {
            out = parts[i].clone();
            proof {
                assert(string_views(parts@.take(1)).len() == 1);
            }
        } else {
            out = concat(&concat(out.as_str(), sep), parts[i].as_str());
        }
        i = i + 1;
    }
    assert(parts@.take(parts@.len() as int) =~= parts@);
    out
}

} // verus!

verus! {

/// A copy of an optional string.
pub fn copy_opt(o: &Option<String>) -> (r: Option<String>)
    ensures
        r == *o,
{
    match o {
        Some(s) => Some(s.clone()),
        None => None,
    }
}

} // verus!

verus! {

proof fn lemma_trim_start_shape(s: Seq<char>)
    ensures
        trim_start_spec(s).len() == 0 || !spec_is_whitespace(trim_start_spec(s)[0]),
    decreases s.len(),
{
    if s.len() > 0 && spec_is_whitespace(s[0]) {
        lemma_trim_start_shape(s.skip(1));
    }
}

proof fn lemma_trim_end_shape(t: Seq<char>)
    ensures
        trim_end_spec(t).len() <= t.len(),
        trim_end_spec(t) == t.take(trim_end_spec(t).len() as int),
        trim_end_spec(t).len() == 0 || !spec_is_whitespace(trim_end_spec(t).last()),
    decreases t.len(),
{
    if t.len() > 0 && spec_is_whitespace(t.last()) {
        lemma_trim_end_shape(t.drop_last());
        let u = trim_end_spec(t.drop_last());
        assert(t.drop_last().take(u.len() as int) =~= t.take(u.len() as int));
    } else {
        assert(t.take(t.len() as int) =~= t);
    }
}

/// Trimming a trimmed text changes nothing.
pub proof fn law_trim_idempotent(s: Seq<char>)
    ensures
        trim_spec(trim_spec(s)) == trim_spec(s),
{
    let t = trim_start_spec(s);
    let u = trim_end_spec(t);
    lemma_trim_start_shape(s);
    lemma_trim_end_shape(t);
    if u.len() > 0 {
        assert(u[0] == t[0]);
    }
    assert(trim_start_spec(u) == u);
    assert(trim_end_spec(u) == u);
}

} // verus!
