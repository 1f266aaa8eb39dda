//! Git state surfaced for a vobe (read-only).

use vstd::prelude::*;

use crate::model::time::Timestamp;

verus! {

/// Surfaced git state.
#[derive(Clone, Debug, PartialEq, Eq)]
pub struct GitInfo {
    /// Current branch name.
    pub branch: String,
    /// Any unstaged or uncommitted changes?
    pub dirty: bool,
    /// Commits ahead of upstream.
    pub ahead: u32,
    /// Commits behind upstream.
    pub behind: u32,
    /// Most recent commit on the current branch.
    pub last_commit: Option<Commit>,
}

/// Minimal commit info.
#[derive(Clone, Debug, PartialEq, Eq)]
pub struct Commit {
    /// Commit SHA.
    pub hash: String,
    /// First line of the commit message.
    pub message: String,
    /// Author name (and email if available).
    pub author: String,
    /// Commit time.
    pub date: Timestamp,
}

} // verus!

verus! {

impl GitInfo {
    /// A clean state on `branch`: no changes, nothing ahead or behind, no
    /// known commit.
    pub fn clean(branch: &str) -> (g: GitInfo)
        ensures
            g.branch@ == branch@,
            !g.dirty,
            g.ahead == 0,
            g.behind == 0,
            g.last_commit is None,
    {
        GitInfo { branch: branch.to_owned(), dirty: false, ahead: 0, behind: 0, last_commit: None }
    }

    /// Uncommitted changes present.
    pub fn is_dirty(&self) -> (r: bool)
        ensures
            r == self.dirty,
    {
        self.dirty
    }

    /// No changes and level with upstream.
    pub fn is_clean(&self) -> (r: bool)
        ensures
            r == (!self.dirty && self.ahead == 0 && self.behind == 0),
    {
        !self.dirty && self.ahead == 0 && self.behind == 0
    }

    /// Commits waiting to be pushed.
    pub fn needs_push(&self) -> (r: bool)
        ensures
            r == (self.ahead > 0),
    {
        self.ahead > 0
    }

    /// Commits waiting to be pulled.
    pub fn needs_pull(&self) -> (r: bool)
        ensures
            r == (self.behind > 0),
    {
        self.behind > 0
    }
}

/// At most the first `n` characters of `s`.
pub open spec fn first_chars(s: Seq<char>, n: int) -> Seq<char> {
    if s.len() <= n {
        s
    } else {
        s.take(n)
    }
}

/// The message cut to `max` characters, with `…` appended when cut.
pub open spec fn spec_short_message(m: Seq<char>, max: int) -> Seq<char> {
    if m.len() <= max {
        m
    } else {
        m.take(max).push('…')
    }
}

pub(crate) fn take_chars(s: &str, n: usize) -> (r: Vec<char>)
    ensures
        r@ == first_chars(s@, n as int),
{
    let v = crate::text::chars_of(s);
    if v.len() <= n {
        return v;
    }
    let mut out: Vec<char> = Vec::new();
    let mut i: usize = 0;
    while i < n
        invariant
            i <= n < v.len(),
            v@ == s@,
            out@ == v@.take(i as int),
        decreases n - i,
    {
        out.push(v[i]);
        i = i + 1;
        assert(out@ =~= v@.take(i as int));
    }
    out
}

impl Commit {
    /// The first seven characters of the hash (all of it when shorter).
    pub fn short_hash(&self) -> (r: String)
        ensures
            r@ == first_chars(self.hash@, 7),
    {
        crate::text::string_of(&take_chars(self.hash.as_str(), 7))
    }

    /// The message cut to at most `max` characters, with `…` appended when
    /// it had to be cut.
    pub fn short_message(&self, max: usize) -> (r: String)
        ensures
            r@ == spec_short_message(self.message@, max as int),
    {
        let mut v = take_chars(self.message.as_str(), max);
        let all = crate::text::chars_of(self.message.as_str());
        if all.len() > max {
            v.push('…');
        }
        crate::text::string_of(&v)
    }
}

impl Commit {
    /// A field-for-field copy.
    pub fn copied(&self) -> (c: Commit)
        ensures
            c == *self,
    {
        Commit {
            hash: self.hash.clone(),
            message: self.message.clone(),
            author: self.author.clone(),
            date: self.date,
        }
    }
}

impl GitInfo {
    /// A field-for-field copy.
    pub fn copied(&self) -> (g: GitInfo)
        ensures
            g == *self,
    {
        GitInfo {
            branch: self.branch.clone(),
            dirty: self.dirty,
            ahead: self.ahead,
            behind: self.behind,
            last_commit: match &self.last_commit {
                Some(c) => Some(c.copied()),
                None => None,
            },
        }
    }
}

} // verus!
