//! Running the scanner's detectors over what was gathered about each
//! walked directory.

use vstd::prelude::*;

use crate::scan::detection::Detection;
use crate::scan::framework::{spec_framework, FrameworkDetector, ManifestFacts};
use crate::scan::language::{any_language, is_winner, sampled, LanguageDetector, LANGUAGES};
use crate::scan::package::{first_lockfile_from, PackageManagerDetector, LOCKFILES};
use crate::scan::repo::RepoDetector;
use crate::scan::report::{
    assemble_report, is_candidate_dir, looks_like_project, merge_findings_spec, projects_of,
    Candidate, DefaultScanner, DetectorKind, ScanReport,
};
use crate::scan::exclude::spec_is_code_subdir;

verus! {

/// What was gathered about one directory for the detectors.
#[derive(Clone, Debug, PartialEq, Eq)]
pub struct DirFacts {
    /// The directory holds a `.git` entry (directory or file).
    pub has_git_entry: bool,
    /// The extension of each file met by the language walk, in walk order
    /// (none when a file has no readable one).
    pub exts: Vec<Option<String>>,
    /// The names of the directory's own entries.
    pub file_names: Vec<String>,
    /// The directory's manifests.
    pub manifests: ManifestFacts,
}

/// A detector: one rule that looks at a directory's facts and may report
/// what it found. A new kind of project is recognised by adding one.
pub trait Detector {
    /// The detector's name, for logs.
    fn name(&self) -> (r: &'static str);

    /// What the detector finds in a directory, if anything.
    fn detect_in(&self, facts: &DirFacts) -> (r: Option<Detection>);
}

/// The name a detector of the given kind goes by.
pub open spec fn kind_name(kind: DetectorKind) -> Seq<char> {
    match kind {
        DetectorKind::Repo(_) => "repo"@,
        DetectorKind::Language(_) => "language"@,
        DetectorKind::PackageManager(_) => "package_manager"@,
        DetectorKind::Framework(_) => "framework"@,
    }
}

/// What a detector of the given kind reports for a directory.
pub open spec fn finding_ok(kind: DetectorKind, facts: DirFacts, f: Option<Detection>) -> bool {
    match kind {
        DetectorKind::Repo(_) => f == (if facts.has_git_entry {
            Some(Detection { is_repo: true, framework: None, language: None, package_manager: None })
        } else {
            None
        }),
        DetectorKind::Language(d) => {
            &&& (f is None <==> !any_language(sampled(facts.exts@, d.max_files as int)))
            &&& (f matches Some(x) ==> {
                &&& !x.is_repo
                &&& x.framework is None
                &&& x.package_manager is None
                &&& exists|li: int|
                    is_winner(sampled(facts.exts@, d.max_files as int), li) && (x.language matches Some(
                        l,
                    ) && l@ == LANGUAGES[li].0@)
            })
        },
        DetectorKind::PackageManager(_) => {
            &&& (f is None <==> first_lockfile_from(facts.file_names@, 0) is None)
            &&& (f matches Some(x) ==> {
                &&& !x.is_repo
                &&& x.framework is None
                &&& x.language is None
                &&& x.package_manager matches Some(pm) && pm@ == LOCKFILES[first_lockfile_from(
                    facts.file_names@,
                    0,
                )->0].1@
            })
        },
        DetectorKind::Framework(_) => {
            &&& (f is None <==> spec_framework(facts.manifests) is None)
            &&& (f matches Some(x) ==> {
                &&& !x.is_repo
                &&& x.language is None
                &&& x.package_manager is None
                &&& x.framework matches Some(fw) && Some(fw@) == spec_framework(facts.manifests)
            })
        },
    }
}

impl Detector for RepoDetector {
    fn name(&self) -> (r: &'static str)
        ensures
            r@ == "repo"@,
    {
        "repo"
    }

    fn detect_in(&self, facts: &DirFacts) -> (r: Option<Detection>)
        ensures
            finding_ok(DetectorKind::Repo(*self), *facts, r),
    {
        self.detect(facts.has_git_entry)
    }
}

impl Detector for LanguageDetector {
    fn name(&self) -> (r: &'static str)
        ensures
            r@ == "language"@,
    {
        "language"
    }

    fn detect_in(&self, facts: &DirFacts) -> (r: Option<Detection>)
        ensures
            finding_ok(DetectorKind::Language(*self), *facts, r),
    {
        self.detect(facts.exts.as_slice())
    }
}

impl Detector for PackageManagerDetector {
    fn name(&self) -> (r: &'static str)
        ensures
            r@ == "package_manager"@,
    {
        "package_manager"
    }

    fn detect_in(&self, facts: &DirFacts) -> (r: Option<Detection>)
        ensures
            finding_ok(DetectorKind::PackageManager(*self), *facts, r),
    {
        self.detect(facts.file_names.as_slice())
    }
}

impl Detector for FrameworkDetector {
    fn name(&self) -> (r: &'static str)
        ensures
            r@ == "framework"@,
    {
        "framework"
    }

    fn detect_in(&self, facts: &DirFacts) -> (r: Option<Detection>)
        ensures
            finding_ok(DetectorKind::Framework(*self), *facts, r),
    {
        self.detect(&facts.manifests)
    }
}

impl Detector for DetectorKind {
    fn name(&self) -> (r: &'static str)
        ensures
            r@ == kind_name(*self),
    {
        match self {
            DetectorKind::Repo(d) => d.name(),
            DetectorKind::Language(d) => d.name(),
            DetectorKind::PackageManager(d) => d.name(),
            DetectorKind::Framework(d) => d.name(),
        }
    }

    fn detect_in(&self, facts: &DirFacts) -> (r: Option<Detection>)
        ensures
            finding_ok(*self, *facts, r),
    {
        match self {
            DetectorKind::Repo(d) => d.detect_in(facts),
            DetectorKind::Language(d) => d.detect_in(facts),
            DetectorKind::PackageManager(d) => d.detect_in(facts),
            DetectorKind::Framework(d) => d.detect_in(facts),
        }
    }
}

/// `fs` holds, for each detector in order, what it reports for the facts.
pub open spec fn findings_ok(detectors: Seq<DetectorKind>, facts: DirFacts, fs: Seq<Option<Detection>>) -> bool {
    &&& fs.len() == detectors.len()
    &&& forall|i: int| 0 <= i < fs.len() ==> finding_ok(#[trigger] detectors[i], facts, fs[i])
}

/// One directory met by the walk: its path, its own name, and its facts.
#[derive(Clone, Debug, PartialEq, Eq)]
pub struct WalkedDir {
    /// Full path.
    pub path: String,
    /// Final name.
    pub name: String,
    /// What was gathered about it.
    pub facts: DirFacts,
}

/// The walked directories that are candidates (source-only subdirectories
/// are not), in order.
pub open spec fn candidates_of(walked: Seq<WalkedDir>) -> Seq<WalkedDir>
    decreases walked.len(),
{
    if walked.len() == 0 {
        walked
    } else if spec_is_code_subdir(walked.last().name@) {
        candidates_of(walked.drop_last())
    } else {
        candidates_of(walked.drop_last()).push(walked.last())
    }
}

/// `cands` are the candidate directories, each with the findings the
/// detectors report for it.
pub open spec fn detected(
    detectors: Seq<DetectorKind>,
    walked: Seq<WalkedDir>,
    cands: Seq<Candidate>,
) -> bool {
    let dirs = candidates_of(walked);
    &&& cands.len() == dirs.len()
    &&& forall|i: int|
        0 <= i < cands.len() ==> (#[trigger] cands[i]).path == dirs[i].path && findings_ok(
            detectors,
            dirs[i].facts,
            cands[i].findings@,
        )
}

/// Each reported project comes from one candidate: its path and merged
/// findings, which mark a project root.
proof fn lemma_project_source(cands: Seq<Candidate>, i: int)
    requires
        0 <= i < projects_of(cands).len(),
    ensures
        exists|k: int|
            0 <= k < cands.len() && #[trigger] cands[k].path == projects_of(cands)[i].0
                && projects_of(cands)[i].1 == merge_findings_spec(cands[k].findings@),
        looks_like_project(projects_of(cands)[i].1),
    decreases cands.len(),
{
    let rest = projects_of(cands.drop_last());
    if i < rest.len() {
        lemma_project_source(cands.drop_last(), i);
        let k = choose|k: int|
            0 <= k < cands.drop_last().len() && #[trigger] cands.drop_last()[k].path == rest[i].0
                && rest[i].1 == merge_findings_spec(cands.drop_last()[k].findings@);
        assert(cands[k] == cands.drop_last()[k]);
    } else {
        let k = cands.len() - 1;
        assert(cands[k] == cands.last());
    }
}

/// Each candidate is a walked directory that is not a source-only
/// subdirectory.
proof fn lemma_candidate_source(walked: Seq<WalkedDir>, k: int)
    requires
        0 <= k < candidates_of(walked).len(),
    ensures
        exists|j: int|
            0 <= j < walked.len() && #[trigger] walked[j] == candidates_of(walked)[k]
                && !spec_is_code_subdir(walked[j].name@),
    decreases walked.len(),
{
    let rest = candidates_of(walked.drop_last());
    if k < rest.len() {
        lemma_candidate_source(walked.drop_last(), k);
        let j = choose|j: int|
            0 <= j < walked.drop_last().len() && #[trigger] walked.drop_last()[j] == rest[k]
                && !spec_is_code_subdir(walked.drop_last()[j].name@);
        assert(walked[j] == walked.drop_last()[j]);
    } else {
        assert(walked[walked.len() - 1] == walked.last());
    }
}

/// A scan reports only projects: each reported path is a walked directory
/// that is not a source-only subdirectory (`src`, `lib`, ...), and its
/// merged detection marks a project root (a repository, a framework or a
/// package manager).
pub proof fn law_scan_reports_only_projects(
    detectors: Seq<DetectorKind>,
    walked: Seq<WalkedDir>,
    cands: Seq<Candidate>,
    i: int,
)
    requires
        detected(detectors, walked, cands),
        0 <= i < projects_of(cands).len(),
    ensures
        looks_like_project(projects_of(cands)[i].1),
        exists|j: int|
            0 <= j < walked.len() && #[trigger] walked[j].path == projects_of(cands)[i].0
                && !spec_is_code_subdir(walked[j].name@),
{
    lemma_project_source(cands, i);
    let k = choose|k: int|
        0 <= k < cands.len() && #[trigger] cands[k].path == projects_of(cands)[i].0
            && projects_of(cands)[i].1 == merge_findings_spec(cands[k].findings@);
    let dirs = candidates_of(walked);
    assert(cands[k].path == dirs[k].path);
    lemma_candidate_source(walked, k);
    let j = choose|j: int|
        0 <= j < walked.len() && #[trigger] walked[j] == dirs[k] && !spec_is_code_subdir(
            walked[j].name@,
        );
    assert(walked[j].path == projects_of(cands)[i].0);
}

/// What the scanner's detectors report for a directory, in detector order.
pub fn findings(detectors: &Vec<DetectorKind>, facts: &DirFacts) -> (r: Vec<Option<Detection>>)
    ensures
        findings_ok(detectors@, *facts, r@),
{
    let mut out: Vec<Option<Detection>> = Vec::new();
    let mut i: usize = 0;
    while i < detectors.len()
        invariant
            i <= detectors@.len(),
            out@.len() == i,
            forall|k: int| 0 <= k < i ==> finding_ok(#[trigger] detectors@[k], *facts, out@[k]),
        decreases detectors@.len() - i,
    {
        let f = detectors[i].detect_in(facts);
        out.push(f);
        i = i + 1;
    }
    out
}

impl DefaultScanner {
    /// What the scanner's detectors report for one directory, merged
    /// (earlier detectors win each field); `None` when none reports.
    pub fn detect_dir(&self, facts: &DirFacts) -> (r: Option<Detection>)
        ensures
            exists|fs: Seq<Option<Detection>>|
                #[trigger] findings_ok(self.detectors@, *facts, fs) && (r is None <==> !crate::scan::report::any_finding(fs))
                    && (r matches Some(d) ==> d == crate::scan::report::merge_findings_spec(fs)),
    {
        let fs = findings(&self.detectors, facts);
        let r = crate::scan::report::merge_findings(fs.as_slice());
        assert(findings_ok(self.detectors@, *facts, fs@));
        r
    }

    /// The report of a scan of `root`: among the walked directories (in
    /// walk order), the candidates whose merged findings mark a project.
    pub fn scan_walked(
        &self,
        root: String,
        walked: &Vec<WalkedDir>,
        dirs_walked: usize,
        dirs_skipped: usize,
    ) -> (r: ScanReport)
        ensures
            r.root == root,
            r.dirs_walked == dirs_walked,
            r.dirs_skipped == dirs_skipped,
            exists|cands: Seq<Candidate>|
                #[trigger] detected(self.detectors@, walked@, cands) && r.vobes@ == projects_of(cands),
    {
        let mut cands: Vec<Candidate> = Vec::new();
        let mut i: usize = 0;
        while i < walked.len()
            invariant
                i <= walked@.len(),
                detected(self.detectors@, walked@.take(i as int), cands@),
            decreases walked@.len() - i,
        {
            proof {
                assert(walked@.take(i + 1).drop_last() =~= walked@.take(i as int));
            }
            let w = &walked[i];
            if is_candidate_dir(w.name.as_str()) {
                let fs = findings(&self.detectors, &w.facts);
                let ghost before = cands@;
                cands.push(Candidate { path: w.path.clone(), findings: fs });
                proof {
                    let dirs = candidates_of(walked@.take(i + 1));
                    assert(dirs == candidates_of(walked@.take(i as int)).push(walked@[i as int]));
                    assert forall|k: int| 0 <= k < cands@.len() implies (#[trigger] cands@[k]).path
                        == dirs[k].path && findings_ok(self.detectors@, dirs[k].facts, cands@[k].findings@) by {
                        if k < before.len() {
                            assert(cands@[k] == before[k]);
                        }
                    }
                }
            }
            i = i + 1;
        }
        assert(walked@.take(walked@.len() as int) =~= walked@);
        let ghost cs = cands@;
        let r = assemble_report(root, cands, dirs_walked, dirs_skipped);
        assert(detected(self.detectors@, walked@, cs));
        r
    }
}

/// A scanner: from the directories walked below a root, the projects
/// found there with what was detected about each.
pub trait Scanner {
    /// The projects found among the walked directories of `root`.
    fn scan(&self, root: &str, walked: &Vec<WalkedDir>) -> (r: Vec<(String, Detection)>);
}

impl Scanner for DefaultScanner {
    fn scan(&self, root: &str, walked: &Vec<WalkedDir>) -> (r: Vec<(String, Detection)>)
        ensures
            exists|cands: Seq<Candidate>|
                #[trigger] detected(self.detectors@, walked@, cands) && r@ == projects_of(cands),
    {
        let report = self.scan_walked(root.to_owned(), walked, 0, 0);
        report.vobes
    }
}

} // verus!
