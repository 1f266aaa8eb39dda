//! Git state of a repository, put together from what the repository
//! reports (read-only: nothing here changes a repository).

use vstd::prelude::*;

use crate::model::git::{first_chars, take_chars, Commit, GitInfo};
use crate::model::time::Timestamp;
use crate::text::{chars_of, concat, string_of};

verus! {

broadcast use vstd::string::group_string_axioms;

/// What the repository's `HEAD` reports.
#[derive(Clone, Debug, PartialEq, Eq)]
pub struct HeadFacts {
    /// `HEAD` is a branch.
    pub is_branch: bool,
    /// The short name of `HEAD`, when it has one.
    pub shorthand: Option<String>,
    /// The full id of the commit `HEAD` points at, when it can be found.
    pub commit_sha: Option<String>,
}

/// What the repository reports of the commit at `HEAD`.
#[derive(Clone, Debug, PartialEq, Eq)]
pub struct CommitFacts {
    /// Full commit id.
    pub sha: String,
    /// First line of the message, when it is valid text.
    pub summary: Option<String>,
    /// Author name, when it is valid text.
    pub author_name: Option<String>,
    /// Author email, when it is valid text.
    pub author_email: Option<String>,
    /// Author time, in seconds since the Unix epoch.
    pub seconds: i64,
}

/// The branch shown for a repository: the branch's short name; for a
/// detached `HEAD`, `(detached <first 7 of the commit id>)`; and
/// `(detached)` when neither can be found.
pub open spec fn spec_branch_label(head: Option<HeadFacts>) -> Seq<char> {
    match head {
        Some(h) => if h.is_branch {
            match h.shorthand {
                Some(s) => s@,
                None => "(detached)"@,
            }
        } else {
            match h.commit_sha {
                Some(sha) => "(detached "@ + first_chars(sha@, 7) + ")"@,
                None => "(detached)"@,
            }
        },
        None => "(detached)"@,
    }
}

/// The branch shown for a repository.
pub fn branch_label(head: &Option<HeadFacts>) -> (r: String)
    ensures
        r@ == spec_branch_label(*head),
{
    match head {
        Some(h) => {
            if h.is_branch {
                match &h.shorthand {
                    Some(s) => s.clone(),
                    None => String::from_str("(detached)"),
                }
            } else {
                match &h.commit_sha {
                    Some(sha) => concat(
                        &concat("(detached ", &string_of(&take_chars(sha.as_str(), 7))),
                        ")",
                    ),
                    None => String::from_str("(detached)"),
                }
            }
        },
        None => String::from_str("(detached)"),
    }
}

/// Some file's status differs from "current" (status bits 0).
pub open spec fn spec_has_changes(statuses: Seq<u32>) -> bool {
    exists|i: int| 0 <= i < statuses.len() && statuses[i] != 0
}

/// Whether any file's status bits are set: a modified, staged, deleted,
/// renamed or untracked file makes the working tree dirty.
pub fn has_changes(statuses: &[u32]) -> (r: bool)
    ensures
        r == spec_has_changes(statuses@),
{
    let mut i: usize = 0;
    while i < statuses.len()
        invariant
            i <= statuses@.len(),
            forall|k: int| 0 <= k < i ==> statuses@[k] == 0,
        decreases statuses@.len() - i,
    {
        if statuses[i] != 0 {
            return true;
        }
        i = i + 1;
    }
    false
}

/// The author as shown: `name <email>`, or the name alone when there is
/// no email; missing parts read as empty.
pub open spec fn spec_author_label(name: Option<String>, email: Option<String>) -> Seq<char> {
    let n = match name {
        Some(s) => s@,
        None => Seq::empty(),
    };
    match email {
        Some(e) if e@.len() > 0 => n + " <"@ + e@ + ">"@,
        _ => n,
    }
}

/// The author as shown.
pub fn author_label(name: &Option<String>, email: &Option<String>) -> (r: String)
    ensures
        r@ == spec_author_label(*name, *email),
{
    let n = match name {
        Some(s) => s.clone(),
        None => String::new(),
    };
    match email {
        Some(e) => {
            if chars_of(e.as_str()).len() > 0 {
                concat(&concat(&concat(n.as_str(), " <"), e.as_str()), ">")
            } else {
                n
            }
        },
        None => n,
    }
}

/// The instant of a commit time given in whole seconds; a time too far
/// from the epoch to count in nanoseconds reads as the epoch.
pub open spec fn spec_commit_instant(seconds: i64) -> Timestamp {
    if -9_223_372_036 <= seconds <= 9_223_372_036 {
        Timestamp { nanos: (seconds * 1_000_000_000) as i64 }
    } else {
        Timestamp { nanos: 0 }
    }
}

/// The instant of a commit time given in whole seconds.
pub fn commit_instant(seconds: i64) -> (t: Timestamp)
    ensures
        t == spec_commit_instant(seconds),
{
    if -9_223_372_036 <= seconds && seconds <= 9_223_372_036 {
        Timestamp { nanos: seconds * 1_000_000_000 }
    } else {
        Timestamp { nanos: 0 }
    }
}

/// The commit shown for what the repository reports: a missing summary
/// reads as empty.
pub open spec fn spec_commit_from(f: CommitFacts) -> (Seq<char>, Seq<char>, Seq<char>, Timestamp) {
    (
        f.sha@,
        match f.summary {
            Some(s) => s@,
            None => Seq::empty(),
        },
        spec_author_label(f.author_name, f.author_email),
        spec_commit_instant(f.seconds),
    )
}

/// The commit shown for what the repository reports.
pub fn commit_from(f: &CommitFacts) -> (c: Commit)
    ensures
        (c.hash@, c.message@, c.author@, c.date) == spec_commit_from(*f),
{
    Commit {
        hash: f.sha.clone(),
        message: match &f.summary {
            Some(s) => s.clone(),
            None => String::new(),
        },
        author: author_label(&f.author_name, &f.author_email),
        date: commit_instant(f.seconds),
    }
}

/// Ahead/behind counts as shown: each count taken modulo 2^32; zero when
/// the branch has no upstream or the counts could not be computed.
pub open spec fn spec_counts(counts: Option<(usize, usize)>) -> (u32, u32) {
    match counts {
        Some((a, b)) => (a as u32, b as u32),
        None => (0, 0),
    }
}

/// The git state of a repository, from what it reports: its `HEAD`, the
/// status bits of its files (`None` when they could not be read, which
/// counts as clean), its ahead/behind counts and its last commit.
pub fn git_info_from(
    head: &Option<HeadFacts>,
    statuses: &Option<Vec<u32>>,
    counts: Option<(usize, usize)>,
    last: &Option<CommitFacts>,
) -> (g: GitInfo)
    ensures
        g.branch@ == spec_branch_label(*head),
        g.dirty == (match statuses {
            Some(s) => spec_has_changes(s@),
            None => false,
        }),
        (g.ahead, g.behind) == spec_counts(counts),
        g.last_commit is Some <==> last is Some,
        g.last_commit matches Some(c) ==> (c.hash@, c.message@, c.author@, c.date) == spec_commit_from(
            last.unwrap(),
        ),
{
    let dirty = match statuses {
        Some(s) => has_changes(s.as_slice()),
        None => false,
    };
    let (ahead, behind) = match counts {
        Some((a, b)) => (a as u32, b as u32),
        None => (0u32, 0u32),
    };
    let last_commit = match last {
        Some(f) => Some(commit_from(f)),
        None => None,
    };
    GitInfo { branch: branch_label(head), dirty, ahead, behind, last_commit }
}

} // verus!
