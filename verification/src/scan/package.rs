//! Package-manager detection by lockfile presence.

use vstd::prelude::*;

use crate::scan::detection::Detection;
use crate::text::str_eq;

verus! {

/// Known lockfiles and the package manager each signals, in priority order
/// (a directory with both `pnpm-lock.yaml` and `package-lock.json` is pnpm).
pub const LOCKFILES: [(&'static str, &'static str); 22] = [
    ("pnpm-lock.yaml", "pnpm"),
    ("yarn.lock", "yarn"),
    ("package-lock.json", "npm"),
    ("bun.lockb", "bun"),
    ("bun.lock", "bun"),
    ("Cargo.lock", "cargo"),
    ("poetry.lock", "poetry"),
    ("Pipfile.lock", "pipenv"),
    ("uv.lock", "uv"),
    ("go.sum", "go"),
    ("go.mod", "go"),
    ("Gemfile.lock", "bundler"),
    ("mix.lock", "hex"),
    ("composer.lock", "composer"),
    ("pubspec.lock", "pub"),
    ("pubspec.yaml", "pub"),
    ("Project.toml", "julia"),
    ("Manifest.toml", "julia"),
    ("flake.lock", "nix"),
    ("flake.nix", "nix"),
    ("podfile.lock", "cocoapods"),
    ("Package.resolved", "swift"),
];

/// `name` is among the present file names.
pub open spec fn is_present(present: Seq<String>, name: Seq<char>) -> bool {
    exists|i: int| 0 <= i < present.len() && #[trigger] present[i]@ == name
}

/// The first lockfile entry at or after `k` whose file is present.
pub open spec fn first_lockfile_from(present: Seq<String>, k: int) -> Option<int>
    decreases 22 - k,
{
    if k < 0 || k >= 22 {
        None
    } else if is_present(present, LOCKFILES[k].0@) {
        Some(k)
    } else {
        first_lockfile_from(present, k + 1)
    }
}

proof fn lemma_first_lockfile_from(present: Seq<String>, i: int, k: int)
    requires
        0 <= i <= k < 22,
        is_present(present, LOCKFILES[k].0@),
        forall|j: int| 0 <= j < k ==> !is_present(present, #[trigger] LOCKFILES[j].0@),
    ensures
        first_lockfile_from(present, i) == Some(k),
    decreases k - i,
{
    if i < k {
        lemma_first_lockfile_from(present, i + 1, k);
    }
}

proof fn lemma_no_lockfile_from(present: Seq<String>, i: int)
    requires
        0 <= i <= 22,
        forall|j: int| 0 <= j < 22 ==> !is_present(present, #[trigger] LOCKFILES[j].0@),
    ensures
        first_lockfile_from(present, i) is None,
    decreases 22 - i,
{
    if i < 22 {
        lemma_no_lockfile_from(present, i + 1);
    }
}

/// The package manager chosen is that of the first lockfile, in table
/// order, whose file is present (every entry of the table can be chosen),
/// and none is chosen exactly when no lockfile of the table is present.
pub proof fn law_first_present_lockfile_wins(present: Seq<String>, k: int)
    requires
        0 <= k < 22,
        is_present(present, LOCKFILES[k].0@),
        forall|j: int| 0 <= j < k ==> !is_present(present, #[trigger] LOCKFILES[j].0@),
    ensures
        first_lockfile_from(present, 0) == Some(k),
{
    lemma_first_lockfile_from(present, 0, k);
}

/// No package manager is chosen exactly when no lockfile of the table is
/// present.
pub proof fn law_no_lockfile_no_manager(present: Seq<String>)
    ensures
        first_lockfile_from(present, 0) is None <==> forall|j: int|
            0 <= j < 22 ==> !is_present(present, #[trigger] LOCKFILES[j].0@),
{
    if forall|j: int| 0 <= j < 22 ==> !is_present(present, #[trigger] LOCKFILES[j].0@) {
        lemma_no_lockfile_from(present, 0);
    } else {
        let k0 = choose|j: int| 0 <= j < 22 && is_present(present, #[trigger] LOCKFILES[j].0@);
        lemma_least_present(present, k0);
    }
}

/// If some lockfile is present, the first present one exists, and it is
/// chosen.
proof fn lemma_least_present(present: Seq<String>, k0: int)
    requires
        0 <= k0 < 22,
        is_present(present, LOCKFILES[k0].0@),
    ensures
        first_lockfile_from(present, 0) is Some,
    decreases k0,
{
    if forall|j: int| 0 <= j < k0 ==> !is_present(present, #[trigger] LOCKFILES[j].0@) {
        lemma_first_lockfile_from(present, 0, k0);
    } else {
        let k1 = choose|j: int| 0 <= j < k0 && is_present(present, #[trigger] LOCKFILES[j].0@);
        lemma_least_present(present, k1);
    }
}

fn present_contains(present: &[String], name: &str) -> (r: bool)
    ensures
        r == is_present(present@, name@),
{
    let mut i: usize = 0;
    while i < present.len()
        invariant
            i <= present.len(),
            forall|j: int| 0 <= j < i ==> present@[j]@ != name@,
        decreases present.len() - i,
    {
        if str_eq(present[i].as_str(), name) {
            return true;
        }
        i = i + 1;
    }
    false
}

/// Detects the primary package manager of a directory.
#[derive(Clone, Copy, Debug, PartialEq, Eq, Structural)]
pub struct PackageManagerDetector;

impl PackageManagerDetector {
    /// Create a new package-manager detector.
    pub fn new() -> (d: PackageManagerDetector) {
        PackageManagerDetector
    }

    /// The package manager of the first lockfile in [`LOCKFILES`] order
    /// that is among `present` (the names of the files that exist in the
    /// directory), as a detection.
    pub fn detect(&self, present: &[String]) -> (r: Option<Detection>)
        ensures
            r is None <==> first_lockfile_from(present@, 0) is None,
            r matches Some(d) ==> {
                &&& !d.is_repo
                &&& d.framework is None
                &&& d.language is None
                &&& d.package_manager matches Some(pm) && pm@ == LOCKFILES[first_lockfile_from(present@, 0)->0].1@
            },
            forall|k: int|
                0 <= k < 22 && is_present(present@, #[trigger] LOCKFILES[k].0@) && (forall|j: int|
                    0 <= j < k ==> !is_present(present@, #[trigger] LOCKFILES[j].0@)) ==> (r matches Some(d)
                    && d.package_manager matches Some(pm) && pm@ == LOCKFILES[k].1@),
            r is None <==> forall|j: int| 0 <= j < 22 ==> !is_present(present@, #[trigger] LOCKFILES[j].0@),
    {
        proof {
            law_no_lockfile_no_manager(present@);
            assert forall|k: int|
                0 <= k < 22 && is_present(present@, #[trigger] LOCKFILES[k].0@) && (forall|j: int|
                    0 <= j < k ==> !is_present(present@, #[trigger] LOCKFILES[j].0@)) implies first_lockfile_from(
                present@,
                0,
            ) == Some(k) by {
                law_first_present_lockfile_wins(present@, k);
            }
        }
        let mut k: usize = 0;
        while k < 22
            invariant
                k <= 22,
                first_lockfile_from(present@, 0) == first_lockfile_from(present@, k as int),
                forall|k2: int|
                    0 <= k2 < 22 && is_present(present@, #[trigger] LOCKFILES[k2].0@) && (forall|j: int|
                        0 <= j < k2 ==> !is_present(present@, #[trigger] LOCKFILES[j].0@)) ==> first_lockfile_from(
                        present@,
                        0,
                    ) == Some(k2),
            decreases 22 - k,
        {
            if present_contains(present, LOCKFILES[k].0) {
                return Some(
                    Detection {
                        is_repo: false,
                        framework: None,
                        language: None,
                        package_manager: Some(LOCKFILES[k].1.to_owned()),
                    },
                );
            }
            k = k + 1;
        }
        None
    }
}

} // verus!
