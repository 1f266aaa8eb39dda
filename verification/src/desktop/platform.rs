//! Which program the desktop app runs to reveal a path, open a terminal or
//! open an editor, per operating system, and which terminals and editors
//! it offers.

use vstd::prelude::*;

use crate::desktop::apps::{
    LINUX_EDITORS, LINUX_TERMINALS, MAC_EDITORS, MAC_TERMINALS, WINDOWS_EDITORS, WINDOWS_TERMINALS,
};
use crate::model::error::Error;
use crate::text::{chars_of, concat, is_prefix, starts_with, str_eq, string_of};

verus! {

broadcast use vstd::string::group_string_axioms;

/// The operating systems the desktop app knows.
#[derive(Clone, Copy, Debug, PartialEq, Eq, Structural)]
pub enum Platform {
    /// macOS.
    MacOs,
    /// Linux.
    Linux,
    /// Windows.
    Windows,
}

/// A program to run: its name, its arguments, and the directory to run it
/// in (the current one when `None`).
#[derive(Clone, Debug, PartialEq, Eq)]
pub struct CommandSpec {
    /// Program name.
    pub program: String,
    /// Arguments, in order.
    pub args: Vec<String>,
    /// Working directory.
    pub current_dir: Option<String>,
}

/// The texts of a list of strings.
pub open spec fn texts(v: Seq<String>) -> Seq<Seq<char>> {
    v.map_values(|s: String| s@)
}

/// A command as texts: program, arguments, working directory.
pub open spec fn command_view(c: CommandSpec) -> (Seq<char>, Seq<Seq<char>>, Option<Seq<char>>) {
    (
        c.program@,
        texts(c.args@),
        match c.current_dir {
            Some(d) => Some(d@),
            None => None,
        },
    )
}

/// A command with no working directory.
fn command(program: &str, args: Vec<String>) -> (c: CommandSpec)
    ensures
        c.program@ == program@,
        c.args == args,
        c.current_dir is None,
{
    CommandSpec { program: program.to_owned(), args, current_dir: None }
}

/// The position of the last `/` in `p`, if any.
pub open spec fn last_slash(p: Seq<char>) -> Option<int>
    decreases p.len(),
{
    if p.len() == 0 {
        None
    } else if p.last() == '/' {
        Some(p.len() - 1)
    } else {
        last_slash(p.drop_last())
    }
}

/// The parent of a path in normal form: `None` for the root and the empty
/// path; the empty path for a single relative name; the root for a name
/// directly under it; otherwise everything before the last `/`.
pub open spec fn spec_parent(p: Seq<char>) -> Option<Seq<char>> {
    if p.len() == 0 || p == seq!['/'] {
        None
    } else {
        match last_slash(p) {
            None => Some(Seq::empty()),
            Some(i) => if i == 0 {
                Some(seq!['/'])
            } else {
                Some(p.take(i))
            },
        }
    }
}

/// The parent of a path in normal form.
pub fn parent(path: &str) -> (r: Option<String>)
    ensures
        match r {
            Some(s) => spec_parent(path@) == Some(s@),
            None => spec_parent(path@) is None,
        },
{
    let v = chars_of(path);
    if v.len() == 0 || (v.len() == 1 && v[0] == '/') {
        proof {
            if v.len() == 1 {
                assert(v@ =~= seq!['/']);
            }
        }
        return None;
    }
    proof {
        if v@ == seq!['/'] {
            assert(v@.len() == 1);
        }
    }
    let mut i: usize = v.len();
    assert(v@.take(v@.len() as int) =~= v@);
    while i > 0 && v[i - 1] != '/'
        invariant
            i <= v@.len(),
            last_slash(v@) == last_slash(v@.take(i as int)),
        decreases i,
    {
        proof {
            assert(v@.take(i as int).drop_last() =~= v@.take(i - 1));
        }
        i = i - 1;
    }
    if i == 0 {
        assert(v@.take(0) =~= Seq::<char>::empty());
        Some(String::new())
    } else if i == 1 {
        assert(v@.take(1).last() == '/');
        let mut root = String::new();
        root.push('/');
        Some(root)
    } else {
        assert(v@.take(i as int).last() == '/');
        let mut out: Vec<char> = Vec::new();
        let mut k: usize = 0;
        while k < i - 1
            invariant
                k <= i - 1,
                i <= v@.len(),
                out@ == v@.take(k as int),
            decreases i - 1 - k,
        {
            out.push(v[k]);
            k = k + 1;
            assert(out@ =~= v@.take(k as int));
        }
        Some(string_of(&out))
    }
}

/// The program that reveals a path in the file manager: macOS `open`
/// (with `-R` to select a file), Linux `xdg-open` on the directory (the
/// parent of a file), Windows `explorer` (with `/select,` for a file).
pub open spec fn spec_reveal_command(
    platform: Platform,
    path: Seq<char>,
    is_file: bool,
    is_dir: bool,
) -> (Seq<char>, Seq<Seq<char>>, Option<Seq<char>>) {
    match platform {
        Platform::MacOs => (
            "open"@,
            if is_file {
                seq!["-R"@, path]
            } else {
                seq![path]
            },
            None,
        ),
        Platform::Linux => (
            "xdg-open"@,
            seq![
                if is_file {
                    match spec_parent(path) {
                        Some(p) => p,
                        None => path,
                    }
                } else {
                    path
                },
            ],
            None,
        ),
        Platform::Windows => (
            "explorer"@,
            if is_dir {
                seq![path]
            } else {
                seq!["/select,"@ + path]
            },
            None,
        ),
    }
}

/// The program that reveals a path, given whether it is a file or a
/// directory.
pub fn reveal_command(platform: Platform, path: &str, is_file: bool, is_dir: bool) -> (c: CommandSpec)
    ensures
        command_view(c) == spec_reveal_command(platform, path@, is_file, is_dir),
{
    let mut args: Vec<String> = Vec::new();
    match platform {
        Platform::MacOs => {
            if is_file {
                args.push(String::from_str("-R"));
            }
            args.push(path.to_owned());
            let c = command("open", args);
            assert(texts(c.args@) =~= spec_reveal_command(platform, path@, is_file, is_dir).1);
            c
        },
        Platform::Linux => {
            let dir = if is_file {
                match parent(path) {
                    Some(p) => p,
                    None => path.to_owned(),
                }
            } else {
                path.to_owned()
            };
            args.push(dir);
            let c = command("xdg-open", args);
            assert(texts(c.args@) =~= spec_reveal_command(platform, path@, is_file, is_dir).1);
            c
        },
        Platform::Windows => {
            if is_dir {
                args.push(path.to_owned());
            } else {
                args.push(concat("/select,", path));
            }
            let c = command("explorer", args);
            assert(texts(c.args@) =~= spec_reveal_command(platform, path@, is_file, is_dir).1);
            c
        },
    }
}

/// What to run to reveal a path: when it does not exist, an internal
/// error `reveal: path does not exist: <path>` (and nothing to run), else
/// the reveal program.
pub fn reveal_path(platform: Platform, path: &str, exists: bool, is_file: bool, is_dir: bool) -> (r:
    Result<CommandSpec, Error>)
    ensures
        !exists ==> (r matches Err(Error::Internal(m)) && m@ == "reveal: path does not exist: "@ + path@),
        exists ==> (r matches Ok(c) && command_view(c) == spec_reveal_command(
            platform,
            path@,
            is_file,
            is_dir,
        )),
{
    if !exists {
        return Err(Error::internal(concat("reveal: path does not exist: ", path)));
    }
    Ok(reveal_command(platform, path, is_file, is_dir))
}

/// How a launched program ended.
#[derive(Clone, Debug, PartialEq, Eq)]
pub enum LaunchOutcome {
    /// It could not be started, for the reason given.
    SpawnFailed(String),
    /// It ran; whether it succeeded, and its exit status as text.
    Exited(bool, String),
}

/// The result of a launch: an internal error `<what>: <reason>` when it
/// could not start, `<what> exited with status <status>` when it failed,
/// success otherwise.
pub fn launch_result(what: &str, outcome: LaunchOutcome) -> (r: Result<(), Error>)
    ensures
        match outcome {
            LaunchOutcome::SpawnFailed(e) => r matches Err(Error::Internal(m)) && m@ == what@
                + ": "@ + e@,
            LaunchOutcome::Exited(ok, status) => if ok {
                r is Ok
            } else {
                r matches Err(Error::Internal(m)) && m@ == what@ + " exited with status "@ + status@
            },
        },
{
    match outcome {
        LaunchOutcome::SpawnFailed(e) => Err(
            Error::internal(concat(&concat(what, ": "), e.as_str())),
        ),
        LaunchOutcome::Exited(ok, status) => {
            if ok {
                Ok(())
            } else {
                Err(Error::internal(concat(&concat(what, " exited with status "), status.as_str())))
            }
        },
    }
}

/// The directory a terminal or editor opens in: the path itself when it
/// is a directory, else its parent (the path when it has none).
pub open spec fn spec_launch_dir(path: Seq<char>, is_dir: bool) -> Seq<char> {
    if is_dir {
        path
    } else {
        match spec_parent(path) {
            Some(p) => p,
            None => path,
        }
    }
}

/// The directory a terminal or editor opens in.
pub fn launch_dir(path: &str, is_dir: bool) -> (r: String)
    ensures
        r@ == spec_launch_dir(path@, is_dir),
{
    if is_dir {
        path.to_owned()
    } else {
        match parent(path) {
            Some(p) => p,
            None => path.to_owned(),
        }
    }
}

/// The chosen application, when one was given and is not empty.
pub open spec fn chosen(app: Option<Seq<char>>) -> Option<Seq<char>> {
    match app {
        Some(a) => if a.len() > 0 {
            Some(a)
        } else {
            None
        },
        None => None,
    }
}

/// The characters of an optional text.
pub open spec fn opt_view(o: Option<&str>) -> Option<Seq<char>> {
    match o {
        Some(s) => Some(s@),
        None => None,
    }
}

/// A terminal the platform knows by this name: one of its candidate
/// terminals (the `open -a` names on macOS, the executables on Linux, the
/// ids on Windows).
pub open spec fn is_known_terminal(platform: Platform, a: Seq<char>) -> bool {
    match platform {
        Platform::MacOs => exists|k: int| 0 <= k < 10 && #[trigger] MAC_TERMINALS[k].0@ == a,
        Platform::Linux => exists|k: int| 0 <= k < 9 && #[trigger] LINUX_TERMINALS[k]@ == a,
        Platform::Windows => exists|k: int| 0 <= k < 4 && #[trigger] WINDOWS_TERMINALS[k].0@ == a,
    }
}

/// The asked-for terminal when the platform knows it; `None` (the
/// platform default) otherwise.
pub open spec fn known_terminal(platform: Platform, app: Option<Seq<char>>) -> Option<Seq<char>> {
    match app {
        Some(a) => if is_known_terminal(platform, a) {
            Some(a)
        } else {
            None
        },
        None => None,
    }
}

/// The program that opens a terminal in `dir`, with an unknown or absent
/// terminal replaced by the platform default: macOS `open -a <app>`
/// (`Terminal` by default); Linux the program (the given default) run in
/// `dir`, with `--working-directory=<dir>` for `gnome-terminal`; Windows
/// `cmd /C start <app> /K cd /D "<dir>"` (`cmd` by default).
pub open spec fn spec_terminal_command(
    platform: Platform,
    dir: Seq<char>,
    app: Option<Seq<char>>,
    linux_default: Seq<char>,
) -> (Seq<char>, Seq<Seq<char>>, Option<Seq<char>>) {
    let known = known_terminal(platform, app);
    match platform {
        Platform::MacOs => (
            "open"@,
            seq![
                "-a"@,
                match known {
                    Some(a) => a,
                    None => "Terminal"@,
                },
                dir,
            ],
            None,
        ),
        Platform::Linux => {
            let prog = match known {
                Some(a) => a,
                None => linux_default,
            };
            (
                prog,
                if prog == "gnome-terminal"@ {
                    seq!["--working-directory="@ + dir]
                } else {
                    Seq::empty()
                },
                Some(dir),
            )
        },
        Platform::Windows => (
            "cmd"@,
            seq![
                "/C"@,
                "start"@,
                match known {
                    Some(a) => a,
                    None => "cmd"@,
                },
                "/K"@,
                "cd /D \""@ + dir + "\""@,
            ],
            None,
        ),
    }
}

/// The asked-for terminal when the platform knows it.
fn known_terminal_app(platform: Platform, app: Option<&str>) -> (r: Option<String>)
    ensures
        match r {
            Some(s) => known_terminal(platform, opt_view(app)) == Some(s@),
            None => known_terminal(platform, opt_view(app)) is None,
        },
{
    let a = match app {
        Some(a) => a,
        None => return None,
    };
    match platform {
        Platform::MacOs => {
            let mut k: usize = 0;
            while k < 10
                invariant
                    k <= 10,
                    platform == Platform::MacOs,
                    opt_view(app) == Some(a@),
                    forall|j: int| 0 <= j < k ==> MAC_TERMINALS[j].0@ != a@,
                decreases 10 - k,
            {
                if str_eq(MAC_TERMINALS[k].0, a) {
                    assert(MAC_TERMINALS[k as int].0@ == a@);
                    assert(is_known_terminal(platform, a@));
                    return Some(a.to_owned());
                }
                k = k + 1;
            }
            None
        },
        Platform::Linux => {
            let mut k: usize = 0;
            while k < 9
                invariant
                    k <= 9,
                    platform == Platform::Linux,
                    opt_view(app) == Some(a@),
                    forall|j: int| 0 <= j < k ==> LINUX_TERMINALS[j]@ != a@,
                decreases 9 - k,
            {
                if str_eq(LINUX_TERMINALS[k], a) {
                    assert(LINUX_TERMINALS[k as int]@ == a@);
                    assert(is_known_terminal(platform, a@));
                    return Some(a.to_owned());
                }
                k = k + 1;
            }
            None
        },
        Platform::Windows => {
            let mut k: usize = 0;
            while k < 4
                invariant
                    k <= 4,
                    platform == Platform::Windows,
                    opt_view(app) == Some(a@),
                    forall|j: int| 0 <= j < k ==> WINDOWS_TERMINALS[j].0@ != a@,
                decreases 4 - k,
            {
                if str_eq(WINDOWS_TERMINALS[k].0, a) {
                    assert(WINDOWS_TERMINALS[k as int].0@ == a@);
                    assert(is_known_terminal(platform, a@));
                    return Some(a.to_owned());
                }
                k = k + 1;
            }
            None
        },
    }
}

/// The program that opens a terminal in `dir`.
pub fn terminal_command(platform: Platform, dir: &str, app: Option<&str>, linux_default: &str) -> (c:
    CommandSpec)
    ensures
        command_view(c) == spec_terminal_command(platform, dir@, opt_view(app), linux_default@),
{
    let known = known_terminal_app(platform, app);
    let mut args: Vec<String> = Vec::new();
    match platform {
        Platform::MacOs => {
            args.push(String::from_str("-a"));
            args.push(
                match known {
                    Some(a) => a,
                    None => String::from_str("Terminal"),
                },
            );
            args.push(dir.to_owned());
            let c = command("open", args);
            assert(texts(c.args@) =~= spec_terminal_command(
                platform,
                dir@,
                opt_view(app),
                linux_default@,
            ).1);
            c
        },
        Platform::Linux => {
            let prog = match known {
                Some(a) => a,
                None => linux_default.to_owned(),
            };
            if str_eq(prog.as_str(), "gnome-terminal") {
                args.push(concat("--working-directory=", dir));
            }
            let c = CommandSpec { program: prog, args, current_dir: Some(dir.to_owned()) };
            assert(texts(c.args@) =~= spec_terminal_command(
                platform,
                dir@,
                opt_view(app),
                linux_default@,
            ).1);
            c
        },
        Platform::Windows => {
            args.push(String::from_str("/C"));
            args.push(String::from_str("start"));
            args.push(
                match known {
                    Some(a) => a,
                    None => String::from_str("cmd"),
                },
            );
            args.push(String::from_str("/K"));
            args.push(concat(&concat("cd /D \"", dir), "\""));
            let c = command("cmd", args);
            assert(texts(c.args@) =~= spec_terminal_command(
                platform,
                dir@,
                opt_view(app),
                linux_default@,
            ).1);
            c
        },
    }
}

/// What to run to open a terminal in `dir`: a not-found error (naming the
/// directory) when it does not exist, else the terminal program.
pub fn open_terminal_with(
    platform: Platform,
    dir: &str,
    dir_exists: bool,
    app: Option<&str>,
    linux_default: &str,
) -> (r: Result<CommandSpec, Error>)
    ensures
        !dir_exists ==> (r matches Err(Error::NotFound(m)) && m@ == dir@),
        dir_exists ==> (r matches Ok(c) && command_view(c) == spec_terminal_command(
            platform,
            dir@,
            opt_view(app),
            linux_default@,
        )),
{
    if !dir_exists {
        return Err(Error::not_found(dir.to_owned()));
    }
    Ok(terminal_command(platform, dir, app, linux_default))
}

/// The command-line shim of a macOS editor, when it has one.
pub open spec fn spec_editor_shim(app: Seq<char>) -> Option<Seq<char>> {
    if app == "Visual Studio Code"@ {
        Some("code"@)
    } else if app == "Cursor"@ {
        Some("cursor"@)
    } else if app == "Zed"@ {
        Some("zed"@)
    } else if app == "Sublime Text"@ {
        Some("subl"@)
    } else if app == "BBEdit"@ {
        Some("bbedit"@)
    } else if app == "Xcode"@ {
        Some("xed"@)
    } else if app == "Nova"@ {
        Some("nova"@)
    } else {
        None
    }
}

/// The command-line shim of a macOS editor, when it has one.
pub fn editor_shim(app: &str) -> (r: Option<&'static str>)
    ensures
        match r {
            Some(s) => spec_editor_shim(app@) == Some(s@),
            None => spec_editor_shim(app@) is None,
        },
{
    if str_eq(app, "Visual Studio Code") {
        Some("code")
    } else if str_eq(app, "Cursor") {
        Some("cursor")
    } else if str_eq(app, "Zed") {
        Some("zed")
    } else if str_eq(app, "Sublime Text") {
        Some("subl")
    } else if str_eq(app, "BBEdit") {
        Some("bbedit")
    } else if str_eq(app, "Xcode") {
        Some("xed")
    } else if str_eq(app, "Nova") {
        Some("nova")
    } else {
        None
    }
}

/// The default Linux editor: `$EDITOR` when set and not empty, else
/// `code`.
pub fn default_linux_editor(editor_var: Option<String>) -> (r: String)
    ensures
        r@ == (match editor_var {
            Some(e) => if e@.len() > 0 {
                e@
            } else {
                "code"@
            },
            None => "code"@,
        }),
{
    match editor_var {
        Some(e) => {
            if chars_of(e.as_str()).len() > 0 {
                e
            } else {
                String::from_str("code")
            }
        },
        None => String::from_str("code"),
    }
}

/// The macOS application asked for (`Visual Studio Code` by default).
pub open spec fn mac_editor(app: Option<Seq<char>>) -> Seq<char> {
    match app {
        Some(a) => a,
        None => "Visual Studio Code"@,
    }
}

/// The command named by an editor id of the form `$EDITOR:<command>` (as
/// the editor list offers for `$EDITOR`), when the command is not empty.
pub open spec fn editor_var_command(app: Option<Seq<char>>) -> Option<Seq<char>> {
    match app {
        Some(a) => if is_prefix("$EDITOR:"@, a) && a.len() > 8 {
            Some(a.skip(8))
        } else {
            None
        },
        None => None,
    }
}

/// The program that opens an editor on `dir`: for an id `$EDITOR:<cmd>`,
/// the command `<cmd>` on any platform; otherwise on macOS the
/// application's shim when it has one and the shim is installed
/// (`shim_installed`), else `open -a <app>`; on Linux the chosen program
/// (the given default when none is chosen); on Windows the chosen program
/// (`code` by default). The editor gets `dir` as its argument.
pub open spec fn spec_editor_command(
    platform: Platform,
    dir: Seq<char>,
    app: Option<Seq<char>>,
    shim_installed: bool,
    linux_default: Seq<char>,
) -> (Seq<char>, Seq<Seq<char>>, Option<Seq<char>>) {
    match editor_var_command(app) {
        Some(cmd) => (cmd, seq![dir], None),
        None => spec_editor_command_for(platform, dir, known_editor(platform, app), shim_installed, linux_default),
    }
}

/// An editor the platform knows by this id: one of its candidate editors
/// (the application names on macOS, the executables elsewhere).
pub open spec fn is_known_editor(platform: Platform, a: Seq<char>) -> bool {
    match platform {
        Platform::MacOs => exists|k: int| 0 <= k < 8 && #[trigger] MAC_EDITORS[k].0@ == a,
        Platform::Linux => exists|k: int| 0 <= k < 10 && #[trigger] LINUX_EDITORS[k].0@ == a,
        Platform::Windows => exists|k: int| 0 <= k < 5 && #[trigger] WINDOWS_EDITORS[k].0@ == a,
    }
}

/// The asked-for editor when the platform knows it; `None` (the platform
/// default) otherwise.
pub open spec fn known_editor(platform: Platform, app: Option<Seq<char>>) -> Option<Seq<char>> {
    match app {
        Some(a) => if is_known_editor(platform, a) {
            Some(a)
        } else {
            None
        },
        None => None,
    }
}

/// The asked-for editor when the platform knows it.
fn known_editor_app(platform: Platform, app: Option<&str>) -> (r: Option<String>)
    ensures
        match r {
            Some(s) => known_editor(platform, opt_view(app)) == Some(s@),
            None => known_editor(platform, opt_view(app)) is None,
        },
{
    let a = match app {
        Some(a) => a,
        None => return None,
    };
    match platform {
        Platform::MacOs => {
            let mut k: usize = 0;
            while k < 8
                invariant
                    k <= 8,
                    platform == Platform::MacOs,
                    opt_view(app) == Some(a@),
                    forall|j: int| 0 <= j < k ==> MAC_EDITORS[j].0@ != a@,
                decreases 8 - k,
            {
                if str_eq(MAC_EDITORS[k].0, a) {
                    assert(MAC_EDITORS[k as int].0@ == a@);
                    return Some(a.to_owned());
                }
                k = k + 1;
            }
            None
        },
        Platform::Linux => {
            let mut k: usize = 0;
            while k < 10
                invariant
                    k <= 10,
                    platform == Platform::Linux,
                    opt_view(app) == Some(a@),
                    forall|j: int| 0 <= j < k ==> LINUX_EDITORS[j].0@ != a@,
                decreases 10 - k,
            {
                if str_eq(LINUX_EDITORS[k].0, a) {
                    assert(LINUX_EDITORS[k as int].0@ == a@);
                    return Some(a.to_owned());
                }
                k = k + 1;
            }
            None
        },
        Platform::Windows => {
            let mut k: usize = 0;
            while k < 5
                invariant
                    k <= 5,
                    platform == Platform::Windows,
                    opt_view(app) == Some(a@),
                    forall|j: int| 0 <= j < k ==> WINDOWS_EDITORS[j].0@ != a@,
                decreases 5 - k,
            {
                if str_eq(WINDOWS_EDITORS[k].0, a) {
                    assert(WINDOWS_EDITORS[k as int].0@ == a@);
                    return Some(a.to_owned());
                }
                k = k + 1;
            }
            None
        },
    }
}

/// The program that opens an editor on `dir` for an ordinary id.
pub open spec fn spec_editor_command_for(
    platform: Platform,
    dir: Seq<char>,
    app: Option<Seq<char>>,
    shim_installed: bool,
    linux_default: Seq<char>,
) -> (Seq<char>, Seq<Seq<char>>, Option<Seq<char>>) {
    match platform {
        Platform::MacOs => match spec_editor_shim(mac_editor(app)) {
            Some(shim) if shim_installed => (shim, seq![dir], None),
            _ => ("open"@, seq!["-a"@, mac_editor(app), dir], None),
        },
        Platform::Linux => (
            match chosen(app) {
                Some(a) => a,
                None => linux_default,
            },
            seq![dir],
            None,
        ),
        Platform::Windows => (
            match app {
                Some(a) => a,
                None => "code"@,
            },
            seq![dir],
            None,
        ),
    }
}

/// The program that opens an editor on `dir`.
pub fn editor_command(
    platform: Platform,
    dir: &str,
    app: Option<&str>,
    shim_installed: bool,
    linux_default: &str,
) -> (c: CommandSpec)
    ensures
        command_view(c) == spec_editor_command(
            platform,
            dir@,
            opt_view(app),
            shim_installed,
            linux_default@,
        ),
{
    let mut args: Vec<String> = Vec::new();
    match app {
        Some(a) => {
            if starts_with(a, "$EDITOR:") {
                let v = chars_of(a);
                proof {
                    reveal_strlit("$EDITOR:");
                }
                if v.len() > 8 {
                    let mut cmd: Vec<char> = Vec::new();
                    let mut k: usize = 8;
                    while k < v.len()
                        invariant
                            8 <= k <= v@.len(),
                            cmd@ == v@.subrange(8, k as int),
                        decreases v@.len() - k,
                    {
                        cmd.push(v[k]);
                        k = k + 1;
                        assert(cmd@ =~= v@.subrange(8, k as int));
                    }
                    assert(cmd@ =~= a@.skip(8));
                    args.push(dir.to_owned());
                    let c = CommandSpec { program: string_of(&cmd), args, current_dir: None };
                    assert(texts(c.args@) =~= seq![dir@]);
                    return c;
                }
            }
        },
        None => {},
    }
    let known = known_editor_app(platform, app);
    let ghost kv = known_editor(platform, opt_view(app));
    match platform {
        Platform::MacOs => {
            let name = match known {
                Some(a) => a,
                None => String::from_str("Visual Studio Code"),
            };
            assert(name@ == mac_editor(kv));
            match editor_shim(name.as_str()) {
                Some(shim) => {
                    if shim_installed {
                        args.push(dir.to_owned());
                        let c = command(shim, args);
                        assert(texts(c.args@) =~= seq![dir@]);
                        return c;
                    }
                },
                None => {},
            }
            args.push(String::from_str("-a"));
            args.push(name);
            args.push(dir.to_owned());
            let c = command("open", args);
            assert(texts(c.args@) =~= seq!["-a"@, mac_editor(kv), dir@]);
            c
        },
        Platform::Linux => {
            let prog = match known {
                Some(a) => a,
                None => linux_default.to_owned(),
            };
            proof {
                match kv {
                    Some(x) => {
                        let k = choose|k: int| 0 <= k < 10 && #[trigger] LINUX_EDITORS[k].0@ == x;
                        lemma_linux_editor_names_nonempty(k);
                        assert(chosen(kv) == Some(x));
                    },
                    None => {},
                }
            }
            args.push(dir.to_owned());
            let c = CommandSpec { program: prog, args, current_dir: None };
            assert(texts(c.args@) =~= seq![dir@]);
            c
        },
        Platform::Windows => {
            let prog = match known {
                Some(a) => a,
                None => String::from_str("code"),
            };
            args.push(dir.to_owned());
            let c = CommandSpec { program: prog, args, current_dir: None };
            assert(texts(c.args@) =~= seq![dir@]);
            c
        },
    }
}

/// The Linux editor names are not empty.
proof fn lemma_linux_editor_names_nonempty(k: int)
    requires
        0 <= k < 10,
    ensures
        LINUX_EDITORS[k].0@.len() > 0,
{
    reveal_strlit("code");
    reveal_strlit("code-insiders");
    reveal_strlit("cursor");
    reveal_strlit("zed");
    reveal_strlit("subl");
    reveal_strlit("vim");
    reveal_strlit("nvim");
    reveal_strlit("emacs");
    reveal_strlit("kak");
    reveal_strlit("micro");
}

/// What to run to open an editor on `dir`: a not-found error (naming the
/// directory) when it does not exist, else the editor program.
pub fn open_editor(
    platform: Platform,
    dir: &str,
    dir_exists: bool,
    app: Option<&str>,
    shim_installed: bool,
    linux_default: &str,
) -> (r: Result<CommandSpec, Error>)
    ensures
        !dir_exists ==> (r matches Err(Error::NotFound(m)) && m@ == dir@),
        dir_exists ==> (r matches Ok(c) && command_view(c) == spec_editor_command(
            platform,
            dir@,
            opt_view(app),
            shim_installed,
            linux_default@,
        )),
{
    if !dir_exists {
        return Err(Error::not_found(dir.to_owned()));
    }
    Ok(editor_command(platform, dir, app, shim_installed, linux_default))
}

proof fn lemma_last_slash_bounds(p: Seq<char>)
    ensures
        last_slash(p) matches Some(i) ==> 0 <= i < p.len() && p[i] == '/',
    decreases p.len(),
{
    if p.len() > 0 && p.last() != '/' {
        lemma_last_slash_bounds(p.drop_last());
    }
}

/// The parent of a path, when it has one, is a prefix of the path.
pub proof fn law_parent_is_prefix(p: Seq<char>)
    ensures
        spec_parent(p) matches Some(q) ==> is_prefix(q, p) && q.len() < p.len(),
{
    lemma_last_slash_bounds(p);
    match spec_parent(p) {
        Some(q) => {
            match last_slash(p) {
                None => {
                    assert(p.take(0) =~= q);
                },
                Some(i) => {
                    if i == 0 {
                        assert(p.take(1) =~= seq!['/']);
                        if p.len() == 1 {
                            assert(p =~= seq!['/']);
                        }
                    } else {
                        assert(p.take(i).len() == i);
                    }
                },
            }
        },
        None => {},
    }
}

/// Revealing opens the path itself, except where the platform must open
/// something else to show a file: on Linux a path that is not a file is
/// opened as it is, and a file's enclosing directory (a prefix of the
/// path) is opened instead; on macOS the path is the last argument, after
/// `-R` exactly for a file; on Windows a directory is opened as it is and
/// anything else is selected with `/select,<path>`.
pub proof fn law_reveal_opens_the_path(platform: Platform, path: Seq<char>, is_file: bool, is_dir: bool)
    ensures
        ({
            let args = spec_reveal_command(platform, path, is_file, is_dir).1;
            &&& platform == Platform::Linux && !is_file ==> args == seq![path]
            &&& platform == Platform::Linux && is_file ==> args.len() == 1 && is_prefix(args[0], path)
            &&& platform == Platform::MacOs ==> args.last() == path && (args.len() == 2 <==> is_file)
                && (is_file ==> args[0] == "-R"@)
            &&& platform == Platform::Windows && is_dir ==> args == seq![path]
            &&& platform == Platform::Windows && !is_dir ==> args == seq!["/select,"@ + path]
        }),
{
    law_parent_is_prefix(path);
    if spec_parent(path) is None {
        assert(path.take(path.len() as int) =~= path);
    }
}

} // verus!
