//! Repository detection.

use vstd::prelude::*;

use crate::scan::detection::Detection;

verus! {

/// Detects git repositories: a `.git` entry, whether a directory or a file
/// (a worktree or submodule).
#[derive(Clone, Copy, Debug, PartialEq, Eq, Structural)]
pub struct RepoDetector;

impl RepoDetector {
    /// Create a new repository detector.
    pub fn new() -> (d: RepoDetector) {
        RepoDetector
    }

    /// A repository detection when the directory holds a `.git` entry.
    pub fn detect(&self, has_git_entry: bool) -> (r: Option<Detection>)
        ensures
            r is Some <==> has_git_entry,
            r matches Some(d) ==> d == (Detection {
                is_repo: true,
                framework: None,
                language: None,
                package_manager: None,
            }),
    {
        if has_git_entry {
            Some(Detection { is_repo: true, framework: None, language: None, package_manager: None })
        } else {
            None
        }
    }
}

} // verus!
