//! The scanner's settings and how its findings become a report.

use vstd::prelude::*;

use crate::scan::detection::Detection;
use crate::scan::exclude::{is_code_subdir, is_excluded, spec_is_code_subdir, spec_is_excluded};
use crate::scan::framework::FrameworkDetector;
use crate::scan::language::LanguageDetector;
use crate::scan::package::PackageManagerDetector;
use crate::scan::repo::RepoDetector;

verus! {

/// One of the built-in detectors.
#[derive(Clone, Copy, Debug, PartialEq, Eq, Structural)]
pub enum DetectorKind {
    /// Git repositories.
    Repo(RepoDetector),
    /// Primary language by extension census.
    Language(LanguageDetector),
    /// Package manager by lockfile.
    PackageManager(PackageManagerDetector),
    /// Framework by manifest.
    Framework(FrameworkDetector),
}

/// Output of scanning one root.
#[derive(Clone, Debug, PartialEq, Eq)]
pub struct ScanReport {
    /// Root that was scanned.
    pub root: String,
    /// `(path, detection)` for every project found.
    pub vobes: Vec<(String, Detection)>,
    /// Number of directories walked.
    pub dirs_walked: usize,
    /// Number of directories skipped because of excludes.
    pub dirs_skipped: usize,
}

impl ScanReport {
    /// Number of projects found.
    pub fn count(&self) -> (r: usize)
        ensures
            r == self.vobes@.len(),
    {
        self.vobes.len()
    }

    /// Whether no project was found.
    pub fn is_empty(&self) -> (r: bool)
        ensures
            r == (self.vobes@.len() == 0),
    {
        self.vobes.len() == 0
    }
}

/// The scanner's settings: its detectors, extra excluded names, walk depth
/// and whether symlinks are followed.
#[derive(Clone, Debug, PartialEq, Eq)]
pub struct DefaultScanner {
    /// Detectors, run in this order on each candidate directory.
    pub detectors: Vec<DetectorKind>,
    /// Extra excluded directory names, on top of the built-in ones.
    pub extra_excludes: Vec<String>,
    /// Maximum walk depth below each root.
    pub max_depth: usize,
    /// Whether to follow symlinks while walking.
    pub follow_symlinks: bool,
}

/// The standard detector set, in order: repository, language, package
/// manager, framework.
pub open spec fn standard_detectors() -> Seq<DetectorKind> {
    seq![
        DetectorKind::Repo(RepoDetector),
        DetectorKind::Language(LanguageDetector { max_files: 4096, max_depth: 6 }),
        DetectorKind::PackageManager(PackageManagerDetector),
        DetectorKind::Framework(FrameworkDetector),
    ]
}

impl DefaultScanner {
    /// A scanner with the standard detectors.
    pub fn with_standard_detectors() -> (s: DefaultScanner)
        ensures
            s.detectors@ == standard_detectors(),
            s.extra_excludes@.len() == 0,
            s.max_depth == 4,
            !s.follow_symlinks,
    {
        let mut d: Vec<DetectorKind> = Vec::new();
        d.push(DetectorKind::Repo(RepoDetector::new()));
        d.push(DetectorKind::Language(LanguageDetector::new()));
        d.push(DetectorKind::PackageManager(PackageManagerDetector::new()));
        d.push(DetectorKind::Framework(FrameworkDetector::new()));
        assert(d@ =~= standard_detectors());
        Self::new(d)
    }

    /// A scanner with the given detectors, no extra excludes, depth 4, not
    /// following symlinks.
    pub fn new(detectors: Vec<DetectorKind>) -> (s: DefaultScanner)
        ensures
            s.detectors == detectors,
            s.extra_excludes@.len() == 0,
            s.max_depth == 4,
            !s.follow_symlinks,
    {
        DefaultScanner { detectors, extra_excludes: Vec::new(), max_depth: 4, follow_symlinks: false }
    }

    /// Replace the extra excluded names.
    pub fn with_extra_excludes(self, excludes: Vec<String>) -> (s: DefaultScanner)
        ensures
            s == (DefaultScanner { extra_excludes: excludes, ..self }),
    {
        DefaultScanner { extra_excludes: excludes, ..self }
    }

    /// Set the maximum walk depth.
    pub fn with_max_depth(self, depth: usize) -> (s: DefaultScanner)
        ensures
            s == (DefaultScanner { max_depth: depth, ..self }),
    {
        DefaultScanner { max_depth: depth, ..self }
    }

    /// Enable or disable following symlinks.
    pub fn with_follow_symlinks(self, follow: bool) -> (s: DefaultScanner)
        ensures
            s == (DefaultScanner { follow_symlinks: follow, ..self }),
    {
        DefaultScanner { follow_symlinks: follow, ..self }
    }

    /// Whether the walk descends into a directory of this name (one not
    /// excluded is descended into, and counts as walked; an excluded one
    /// is skipped).
    pub fn descends_into(&self, name: &str) -> (r: bool)
        ensures
            r == !spec_is_excluded(name@, self.extra_excludes@),
    {
        !is_excluded(name, self.extra_excludes.as_slice())
    }
}

/// Whether a walked directory is a candidate project (source-only
/// subdirectories are not).
pub fn is_candidate_dir(name: &str) -> (r: bool)
    ensures
        r == !spec_is_code_subdir(name@),
{
    !is_code_subdir(name)
}

/// The findings of the detectors that reported something, merged left to
/// right (earlier detectors win each field).
pub open spec fn merge_findings_spec(findings: Seq<Option<Detection>>) -> Detection
    decreases findings.len(),
{
    if findings.len() == 0 {
        Detection::spec_empty()
    } else {
        let acc = merge_findings_spec(findings.drop_last());
        match findings.last() {
            Some(d) => acc.spec_merge(d),
            None => acc,
        }
    }
}

/// Some detector reported something.
pub open spec fn any_finding(findings: Seq<Option<Detection>>) -> bool {
    exists|i: int| 0 <= i < findings.len() && #[trigger] findings[i] is Some
}

/// A merged detection that marks a project root: a repository, or a
/// framework or package manager was found (a language alone is not enough).
pub open spec fn looks_like_project(d: Detection) -> bool {
    d.is_repo || d.framework is Some || d.package_manager is Some
}

/// Merge what the detectors reported for one directory; `None` when none
/// of them reported anything.
pub fn merge_findings(findings: &[Option<Detection>]) -> (r: Option<Detection>)
    ensures
        r is None <==> !any_finding(findings@),
        r matches Some(d) ==> d == merge_findings_spec(findings@),
{
    let mut merged = Detection::empty();
    let mut any = false;
    let mut i: usize = 0;
    while i < findings.len()
        invariant
            i <= findings.len(),
            merged == merge_findings_spec(findings@.take(i as int)),
            any == any_finding(findings@.take(i as int)),
        decreases findings.len() - i,
    {
        let ghost before = findings@.take(i as int);
        proof {
            assert(findings@.take(i + 1).drop_last() =~= before);
            assert(findings@.take(i + 1).last() == findings@[i as int]);
        }
        match &findings[i] {
            Some(d) => {
                merged.merge(d.copied());
                any = true;
                assert(findings@.take(i + 1)[i as int] is Some);
            },
            None => {
                proof {
                    let after = findings@.take(i + 1);
                    assert forall|j: int| 0 <= j < after.len() && #[trigger] after[j] is Some implies
                        0 <= j < before.len() && before[j] is Some by {
                        if j < before.len() {
                            assert(after[j] == before[j]);
                        }
                    }
                    if any_finding(before) {
                        let j = choose|j: int| 0 <= j < before.len() && #[trigger] before[j] is Some;
                        assert(after[j] == before[j]);
                    }
                }
            },
        }
        i = i + 1;
    }
    assert(findings@.take(findings.len() as int) =~= findings@);
    if any {
        Some(merged)
    } else {
        None
    }
}

/// One walked candidate directory and what each detector reported on it.
#[derive(Clone, Debug, PartialEq, Eq)]
pub struct Candidate {
    /// Path of the directory.
    pub path: String,
    /// What each detector reported, in detector order.
    pub findings: Vec<Option<Detection>>,
}

/// The projects among the candidates: those where some detector reported
/// and the merged detection marks a project root, in candidate order.
pub open spec fn projects_of(cands: Seq<Candidate>) -> Seq<(String, Detection)>
    decreases cands.len(),
{
    if cands.len() == 0 {
        Seq::empty()
    } else {
        let rest = projects_of(cands.drop_last());
        let c = cands.last();
        if any_finding(c.findings@) && looks_like_project(merge_findings_spec(c.findings@)) {
            rest.push((c.path, merge_findings_spec(c.findings@)))
        } else {
            rest
        }
    }
}

/// Assemble the report of a scan from the walked candidates and counters.
pub fn assemble_report(
    root: String,
    candidates: Vec<Candidate>,
    dirs_walked: usize,
    dirs_skipped: usize,
) -> (r: ScanReport)
    ensures
        r.root == root,
        r.vobes@ == projects_of(candidates@),
        r.dirs_walked == dirs_walked,
        r.dirs_skipped == dirs_skipped,
{
    let ghost all = candidates@;
    let mut vobes: Vec<(String, Detection)> = Vec::new();
    let mut i: usize = 0;
    while i < candidates.len()
        invariant
            all == candidates@,
            i <= candidates.len(),
            vobes@ == projects_of(all.take(i as int)),
        decreases candidates.len() - i,
    {
        let c = &candidates[i];
        proof {
            assert(all.take(i + 1).drop_last() =~= all.take(i as int));
        }
        match merge_findings(c.findings.as_slice()) {
            Some(d) => {
                if d.is_repo || d.framework.is_some() || d.package_manager.is_some() {
                    vobes.push((c.path.clone(), d));
                }
            },
            None => {},
        }
        i = i + 1;
    }
    assert(all.take(candidates.len() as int) =~= all);
    ScanReport { root, vobes, dirs_walked, dirs_skipped }
}

} // verus!
