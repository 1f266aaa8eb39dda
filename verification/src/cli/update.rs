//! Which package manager installed the running binary, and how to update
//! it.

use vstd::prelude::*;

use crate::text::{concat, is_prefix, starts_with};

verus! {

broadcast use vstd::string::group_string_axioms;

/// The update command for a cargo install.
pub const CARGO_CMD: &'static str = "cargo install vobes-cli --locked --force";

/// Install locations of package managers: path prefix, manager, update
/// command; the first prefix that matches wins.
pub const MANAGED: [(&'static str, &'static str, &'static str); 3] = [
    ("/opt/homebrew/", "Homebrew (macOS)", "brew upgrade vobes-cli"),
    ("/home/linuxbrew/.linuxbrew/", "Homebrew (Linux)", "brew upgrade vobes-cli"),
    ("/snap/", "snap", "sudo snap refresh vobes-cli"),
];

/// The index of the first managed prefix at or after `k` that starts the
/// path.
pub open spec fn managed_from(path: Seq<char>, k: int) -> Option<int>
    decreases 3 - k,
{
    if k < 0 || k >= 3 {
        None
    } else if is_prefix(MANAGED[k].0@, path) {
        Some(k)
    } else {
        managed_from(path, k + 1)
    }
}

/// Whether the path lies under `<dir>/bin/` for an optional directory.
pub open spec fn under_bin(path: Seq<char>, dir: Option<Seq<char>>, sub: Seq<char>) -> bool {
    match dir {
        Some(d) => is_prefix(d + sub, path),
        None => false,
    }
}

/// The manager and update command for a binary at `path`: cargo when it
/// lies under `$CARGO_HOME/bin/` or `$HOME/.cargo/bin/`, else the first
/// managed prefix it starts with, else none.
pub open spec fn spec_detect_manager(
    path: Seq<char>,
    cargo_home: Option<Seq<char>>,
    home: Option<Seq<char>>,
) -> Option<(Seq<char>, Seq<char>)> {
    if under_bin(path, cargo_home, "/bin/"@) || under_bin(path, home, "/.cargo/bin/"@) {
        Some(("cargo"@, CARGO_CMD@))
    } else {
        match managed_from(path, 0) {
            Some(k) => Some((MANAGED[k].1@, MANAGED[k].2@)),
            None => None,
        }
    }
}

/// The characters of an optional text.
pub open spec fn opt_str_view(o: Option<&str>) -> Option<Seq<char>> {
    match o {
        Some(s) => Some(s@),
        None => None,
    }
}

/// The views of a manager and its command.
pub open spec fn pair_view(o: Option<(&'static str, &'static str)>) -> Option<(Seq<char>, Seq<char>)> {
    match o {
        Some((a, b)) => Some((a@, b@)),
        None => None,
    }
}

/// Whether `path` starts with `dir` followed by `sub`.
fn starts_under(path: &str, dir: Option<&str>, sub: &str) -> (r: bool)
    ensures
        r == under_bin(path@, opt_str_view(dir), sub@),
{
    match dir {
        Some(d) => starts_with(path, concat(d, sub).as_str()),
        None => false,
    }
}

/// Which package manager a binary at `path` belongs to, and its update
/// command, given `$CARGO_HOME` and `$HOME`.
pub fn detect_manager(path: &str, cargo_home: Option<&str>, home: Option<&str>) -> (r: Option<
    (&'static str, &'static str),
>)
    ensures
        pair_view(r) == spec_detect_manager(path@, opt_str_view(cargo_home), opt_str_view(home)),
{
    if starts_under(path, cargo_home, "/bin/") || starts_under(path, home, "/.cargo/bin/") {
        return Some(("cargo", CARGO_CMD));
    }
    let mut k: usize = 0;
    while k < 3
        invariant
            k <= 3,
            managed_from(path@, 0) == managed_from(path@, k as int),
            !under_bin(path@, opt_str_view(cargo_home), "/bin/"@),
            !under_bin(path@, opt_str_view(home), "/.cargo/bin/"@),
        decreases 3 - k,
    {
        if starts_with(path, MANAGED[k].0) {
            return Some((MANAGED[k].1, MANAGED[k].2));
        }
        k = k + 1;
    }
    None
}

} // verus!
