//! The result of inspecting one directory.

use vstd::prelude::*;
use crate::text::copy_opt;

verus! {

/// What detectors found about one directory.
#[derive(Clone, Debug, PartialEq, Eq)]
pub struct Detection {
    /// Whether the directory is a git repository.
    pub is_repo: bool,
    /// Detected framework, if any.
    pub framework: Option<String>,
    /// Detected primary language, if any.
    pub language: Option<String>,
    /// Detected package manager, if any.
    pub package_manager: Option<String>,
}

/// The value of the left option when it has one, else the right one.
pub open spec fn first_some<T>(a: Option<T>, b: Option<T>) -> Option<T> {
    if a is Some {
        a
    } else {
        b
    }
}

impl Detection {
    /// Nothing found.
    pub open spec fn spec_empty() -> Detection {
        Detection { is_repo: false, framework: None, language: None, package_manager: None }
    }

    /// Nothing found at all.
    pub open spec fn spec_is_empty(self) -> bool {
        !self.is_repo && self.framework is None && self.language is None
            && self.package_manager is None
    }

    /// `self` merged with `other`: repository flags combine with "or", and
    /// each field keeps the value of `self` when it has one.
    pub open spec fn spec_merge(self, other: Detection) -> Detection {
        Detection {
            is_repo: self.is_repo || other.is_repo,
            framework: first_some(self.framework, other.framework),
            language: first_some(self.language, other.language),
            package_manager: first_some(self.package_manager, other.package_manager),
        }
    }

    /// Empty detection.
    pub fn empty() -> (d: Detection)
        ensures
            d == Detection::spec_empty(),
    {
        Detection { is_repo: false, framework: None, language: None, package_manager: None }
    }

    /// Whether anything was found.
    pub fn is_empty(&self) -> (r: bool)
        ensures
            r == self.spec_is_empty(),
    {
        !self.is_repo && self.framework.is_none() && self.language.is_none()
            && self.package_manager.is_none()
    }

    /// A field-for-field copy.
    pub fn copied(&self) -> (d: Detection)
        ensures
            d == *self,
    {
        Detection {
            is_repo: self.is_repo,
            framework: copy_opt(&self.framework),
            language: copy_opt(&self.language),
            package_manager: copy_opt(&self.package_manager),
        }
    }

    /// Merge another detection into this one: values already present win.
    pub fn merge(&mut self, other: Detection)
        ensures
            *final(self) == old(self).spec_merge(other),
    {
        self.is_repo = self.is_repo || other.is_repo;
        if self.framework.is_none() {
            self.framework = other.framework;
        }
        if self.language.is_none() {
            self.language = other.language;
        }
        if self.package_manager.is_none() {
            self.package_manager = other.package_manager;
        }
    }
}

impl Default for Detection {
    fn default() -> (d: Detection)
        ensures
            d == Detection::spec_empty(),
    {
        Detection::empty()
    }
}

/// Merging with nothing changes nothing, from either side.
pub proof fn law_merge_empty_identity(d: Detection)
    ensures
        d.spec_merge(Detection::spec_empty()) == d,
        Detection::spec_empty().spec_merge(d) == d,
{
}

/// Merging is associative: folding detections together does not depend on
/// how the folds are grouped.
pub proof fn law_merge_associative(a: Detection, b: Detection, c: Detection)
    ensures
        a.spec_merge(b).spec_merge(c) == a.spec_merge(b.spec_merge(c)),
{
}

/// Merging keeps every value already present, and the result is empty only
/// when both sides are.
pub proof fn law_merge_keeps_present(a: Detection, b: Detection)
    ensures
        a.framework is Some ==> a.spec_merge(b).framework == a.framework,
        a.language is Some ==> a.spec_merge(b).language == a.language,
        a.package_manager is Some ==> a.spec_merge(b).package_manager == a.package_manager,
        a.spec_merge(b).spec_is_empty() == (a.spec_is_empty() && b.spec_is_empty()),
{
}

} // verus!
