//! The terminals and editors the desktop app offers, from what is
//! installed.

use vstd::prelude::*;

use crate::desktop::platform::Platform;
use crate::text::{chars_of, concat, str_eq};

verus! {

broadcast use vstd::string::group_string_axioms;

/// A terminal the user can pick.
#[derive(Clone, Debug, PartialEq, Eq)]
pub struct TerminalApp {
    /// Key passed back when opening a terminal.
    pub id: String,
    /// Label shown in the menu.
    pub label: String,
    /// Whether it is the platform default.
    pub is_default: bool,
}

/// An editor the user can pick.
#[derive(Clone, Debug, PartialEq, Eq)]
pub struct EditorApp {
    /// Key passed back when opening an editor.
    pub id: String,
    /// Label shown in the menu.
    pub label: String,
    /// Whether it is the default.
    pub is_default: bool,
}

/// macOS terminals: the name given to `open -a`, and where it is installed.
pub const MAC_TERMINALS: [(&'static str, &'static str); 10] = [
    ("Terminal", "/System/Applications/Utilities/Terminal.app"),
    ("iTerm", "/Applications/iTerm.app"),
    ("Warp", "/Applications/Warp.app"),
    ("Alacritty", "/Applications/Alacritty.app"),
    ("kitty", "/Applications/kitty.app"),
    ("WezTerm", "/Applications/WezTerm.app"),
    ("Hyper", "/Applications/Hyper.app"),
    ("Tabby", "/Applications/Tabby.app"),
    ("Wave", "/Applications/Wave.app"),
    ("Ghostty", "/Applications/Ghostty.app"),
];

/// Linux terminals, by executable name.
pub const LINUX_TERMINALS: [&'static str; 9] = [
    "x-terminal-emulator",
    "gnome-terminal",
    "konsole",
    "xfce4-terminal",
    "alacritty",
    "kitty",
    "wezterm",
    "foot",
    "xterm",
];

/// Windows terminals: id and label.
pub const WINDOWS_TERMINALS: [(&'static str, &'static str); 4] = [
    ("wt", "Windows Terminal"),
    ("pwsh", "PowerShell 7"),
    ("powershell", "Windows PowerShell"),
    ("cmd", "Command Prompt"),
];

/// macOS editors: application name and where it is installed.
pub const MAC_EDITORS: [(&'static str, &'static str); 8] = [
    ("Visual Studio Code", "/Applications/Visual Studio Code.app"),
    ("Cursor", "/Applications/Cursor.app"),
    ("Zed", "/Applications/Zed.app"),
    ("Sublime Text", "/Applications/Sublime Text.app"),
    ("BBEdit", "/Applications/BBEdit.app"),
    ("Nova", "/Applications/Nova.app"),
    ("Xcode", "/Applications/Xcode.app"),
    ("TextEdit", "/System/Applications/TextEdit.app"),
];

/// Linux editors: executable name and label.
pub const LINUX_EDITORS: [(&'static str, &'static str); 10] = [
    ("code", "Visual Studio Code"),
    ("code-insiders", "VS Code Insiders"),
    ("cursor", "Cursor"),
    ("zed", "Zed"),
    ("subl", "Sublime Text"),
    ("vim", "Vim"),
    ("nvim", "Neovim"),
    ("emacs", "Emacs"),
    ("kak", "Kakoune"),
    ("micro", "micro"),
];

/// Windows editors: executable name and label.
pub const WINDOWS_EDITORS: [(&'static str, &'static str); 5] = [
    ("code", "Visual Studio Code"),
    ("code-insiders", "VS Code Insiders"),
    ("cursor", "Cursor"),
    ("zed", "Zed"),
    ("notepad", "Notepad"),
];

/// The Linux terminals tried, in order, for the default.
pub const LINUX_DEFAULT_ORDER: [&'static str; 4] = [
    "x-terminal-emulator",
    "gnome-terminal",
    "konsole",
    "xfce4-terminal",
];

/// The default Linux terminal: the first of [`LINUX_DEFAULT_ORDER`] that
/// is installed, else `xterm`.
pub open spec fn spec_default_linux_terminal(installed: Seq<bool>) -> Seq<char> {
    if installed[0] {
        LINUX_DEFAULT_ORDER[0]@
    } else if installed[1] {
        LINUX_DEFAULT_ORDER[1]@
    } else if installed[2] {
        LINUX_DEFAULT_ORDER[2]@
    } else if installed[3] {
        LINUX_DEFAULT_ORDER[3]@
    } else {
        "xterm"@
    }
}

/// The default Linux terminal, given which of [`LINUX_DEFAULT_ORDER`] are
/// installed.
pub fn default_linux_terminal(installed: &[bool]) -> (r: &'static str)
    requires
        installed@.len() == 4,
    ensures
        r@ == spec_default_linux_terminal(installed@),
{
    if installed[0] {
        LINUX_DEFAULT_ORDER[0]
    } else if installed[1] {
        LINUX_DEFAULT_ORDER[1]
    } else if installed[2] {
        LINUX_DEFAULT_ORDER[2]
    } else if installed[3] {
        LINUX_DEFAULT_ORDER[3]
    } else {
        "xterm"
    }
}

/// The indices below `n` whose candidate is installed, in order.
pub open spec fn picked(installed: Seq<bool>, n: int) -> Seq<int>
    decreases n,
{
    if n <= 0 {
        Seq::empty()
    } else if installed[n - 1] {
        picked(installed, n - 1).push(n - 1)
    } else {
        picked(installed, n - 1)
    }
}

/// A menu entry as texts: id, label, default flag.
pub open spec fn terminal_view(t: TerminalApp) -> (Seq<char>, Seq<char>, bool) {
    (t.id@, t.label@, t.is_default)
}

/// A menu entry as texts: id, label, default flag.
pub open spec fn editor_view(e: EditorApp) -> (Seq<char>, Seq<char>, bool) {
    (e.id@, e.label@, e.is_default)
}

/// Whether some entry is the default.
pub open spec fn has_default(s: Seq<(Seq<char>, Seq<char>, bool)>) -> bool {
    exists|i: int| 0 <= i < s.len() && (#[trigger] s[i]).2
}

/// The installed macOS terminals, each labelled by its name; `Terminal` is
/// the default and is listed first even when it was not found.
pub open spec fn spec_mac_terminals(installed: Seq<bool>) -> Seq<(Seq<char>, Seq<char>, bool)> {
    let base = picked(installed, 10).map_values(
        |k: int| (MAC_TERMINALS[k].0@, MAC_TERMINALS[k].0@, MAC_TERMINALS[k].0@ == "Terminal"@),
    );
    if has_default(base) {
        base
    } else {
        seq![("Terminal"@, "Terminal"@, true)] + base
    }
}

/// The installed Linux terminals, each labelled by its name; the given
/// default is marked.
pub open spec fn spec_linux_terminals(installed: Seq<bool>, default: Seq<char>) -> Seq<
    (Seq<char>, Seq<char>, bool),
> {
    picked(installed, 9).map_values(
        |k: int| (LINUX_TERMINALS[k]@, LINUX_TERMINALS[k]@, LINUX_TERMINALS[k]@ == default),
    )
}

/// Every Windows terminal (they cannot be probed), `cmd` the default.
pub open spec fn spec_windows_terminals() -> Seq<(Seq<char>, Seq<char>, bool)> {
    Seq::new(4, |k: int| (WINDOWS_TERMINALS[k].0@, WINDOWS_TERMINALS[k].1@, k == 3))
}

/// The terminals offered on a platform, given which candidates are
/// installed and the Linux default.
pub open spec fn spec_list_terminals(
    platform: Platform,
    installed: Seq<bool>,
    linux_default: Seq<char>,
) -> Seq<(Seq<char>, Seq<char>, bool)> {
    match platform {
        Platform::MacOs => spec_mac_terminals(installed),
        Platform::Linux => spec_linux_terminals(installed, linux_default),
        Platform::Windows => spec_windows_terminals(),
    }
}

/// The number of terminal candidates probed on a platform.
pub open spec fn terminal_candidates(platform: Platform) -> nat {
    match platform {
        Platform::MacOs => 10,
        Platform::Linux => 9,
        Platform::Windows => 0,
    }
}

/// An entry.
fn terminal(id: &str, label: &str, is_default: bool) -> (t: TerminalApp)
    ensures
        terminal_view(t) == (id@, label@, is_default),
{
    TerminalApp { id: id.to_owned(), label: label.to_owned(), is_default }
}

/// The terminals offered on a platform: `installed[k]` says whether the
/// platform's `k`-th candidate is installed.
pub fn list_terminals(platform: Platform, installed: &[bool], linux_default: &str) -> (r: Vec<
    TerminalApp,
>)
    requires
        installed@.len() == terminal_candidates(platform),
    ensures
        r@.map_values(|t: TerminalApp| terminal_view(t)) == spec_list_terminals(
            platform,
            installed@,
            linux_default@,
        ),
{
    let mut out: Vec<TerminalApp> = Vec::new();
    match platform {
        Platform::MacOs => {
            let mut any_default = false;
            let mut k: usize = 0;
            while k < 10
                invariant
                    k <= 10,
                    installed@.len() == 10,
                    out@.map_values(|t: TerminalApp| terminal_view(t)) == picked(
                        installed@,
                        k as int,
                    ).map_values(
                        |j: int|
                            (
                                MAC_TERMINALS[j].0@,
                                MAC_TERMINALS[j].0@,
                                MAC_TERMINALS[j].0@ == "Terminal"@,
                            ),
                    ),
                    any_default == has_default(out@.map_values(|t: TerminalApp| terminal_view(t))),
                decreases 10 - k,
            {
                let ghost before = out@.map_values(|t: TerminalApp| terminal_view(t));
                if installed[k] {
                    let id = MAC_TERMINALS[k].0;
                    let d = str_eq(id, "Terminal");
                    out.push(terminal(id, id, d));
                    any_default = any_default || d;
                    proof {
                        let after = out@.map_values(|t: TerminalApp| terminal_view(t));
                        assert(after =~= before.push((id@, id@, d)));
                        if has_default(before) {
                            let i = choose|i: int| 0 <= i < before.len() && (#[trigger] before[i]).2;
                            assert(after[i] == before[i]);
                        }
                        if d {
                            assert(after[after.len() - 1].2);
                        }
                        if has_default(after) && !d {
                            let i = choose|i: int| 0 <= i < after.len() && (#[trigger] after[i]).2;
                            assert(before[i] == after[i]);
                        }
                    }
                }
                proof {
                    let after = out@.map_values(|t: TerminalApp| terminal_view(t));
                    assert(picked(installed@, k + 1).map_values(
                        |j: int|
                            (
                                MAC_TERMINALS[j].0@,
                                MAC_TERMINALS[j].0@,
                                MAC_TERMINALS[j].0@ == "Terminal"@,
                            ),
                    ) =~= after);
                }
                k = k + 1;
            }
            if !any_default {
                let mut with_default: Vec<TerminalApp> = Vec::new();
                with_default.push(terminal("Terminal", "Terminal", true));
                let ghost base = out@.map_values(|t: TerminalApp| terminal_view(t));
                let mut i: usize = 0;
                while i < out.len()
                    invariant
                        i <= out@.len(),
                        base == out@.map_values(|t: TerminalApp| terminal_view(t)),
                        with_default@.map_values(|t: TerminalApp| terminal_view(t)) == seq![
                            ("Terminal"@, "Terminal"@, true),
                        ] + base.take(i as int),
                    decreases out@.len() - i,
                {
                    let t = &out[i];
                    let ghost prev = with_default@.map_values(|t: TerminalApp| terminal_view(t));
                    assert(base[i as int] == terminal_view(out@[i as int]));
                    with_default.push(terminal(t.id.as_str(), t.label.as_str(), t.is_default));
                    assert(with_default@.map_values(|t: TerminalApp| terminal_view(t)) =~= prev.push(
                        base[i as int],
                    ));
                    assert(base.take(i + 1) =~= base.take(i as int).push(base[i as int]));
                    i = i + 1;
                    assert(with_default@.map_values(|t: TerminalApp| terminal_view(t)) =~= seq![
                        ("Terminal"@, "Terminal"@, true),
                    ] + base.take(i as int));
                }
                assert(base.take(base.len() as int) =~= base);
                return with_default;
            }
        },
        Platform::Linux => {
            let mut k: usize = 0;
            while k < 9
                invariant
                    k <= 9,
                    installed@.len() == 9,
                    out@.map_values(|t: TerminalApp| terminal_view(t)) == picked(
                        installed@,
                        k as int,
                    ).map_values(
                        |j: int|
                            (LINUX_TERMINALS[j]@, LINUX_TERMINALS[j]@, LINUX_TERMINALS[j]@ == linux_default@),
                    ),
                decreases 9 - k,
            {
                let ghost before = out@.map_values(|t: TerminalApp| terminal_view(t));
                if installed[k] {
                    let id = LINUX_TERMINALS[k];
                    out.push(terminal(id, id, str_eq(id, linux_default)));
                    assert(out@.map_values(|t: TerminalApp| terminal_view(t)) =~= before.push(
                        (id@, id@, id@ == linux_default@),
                    ));
                }
                assert(picked(installed@, k + 1).map_values(
                    |j: int|
                        (LINUX_TERMINALS[j]@, LINUX_TERMINALS[j]@, LINUX_TERMINALS[j]@ == linux_default@),
                ) =~= out@.map_values(|t: TerminalApp| terminal_view(t)));
                k = k + 1;
            }
        },
        Platform::Windows => {
            let mut k: usize = 0;
            while k < 4
                invariant
                    k <= 4,
                    out@.map_values(|t: TerminalApp| terminal_view(t)) == spec_windows_terminals().take(
                        k as int,
                    ),
                decreases 4 - k,
            {
                let ghost before = out@.map_values(|t: TerminalApp| terminal_view(t));
                out.push(terminal(WINDOWS_TERMINALS[k].0, WINDOWS_TERMINALS[k].1, k == 3));
                assert(spec_windows_terminals()[k as int] == (
                    WINDOWS_TERMINALS[k as int].0@,
                    WINDOWS_TERMINALS[k as int].1@,
                    k == 3,
                ));
                assert(out@.map_values(|t: TerminalApp| terminal_view(t)) =~= before.push(
                    spec_windows_terminals()[k as int],
                ));
                assert(spec_windows_terminals().take(k + 1) =~= spec_windows_terminals().take(
                    k as int,
                ).push(spec_windows_terminals()[k as int]));
                k = k + 1;
                assert(out@.map_values(|t: TerminalApp| terminal_view(t)) =~= spec_windows_terminals().take(
                    k as int,
                ));
            }
            assert(spec_windows_terminals().take(4) =~= spec_windows_terminals());
        },
    }
    out
}

/// The installed macOS editors, each labelled by its name; Visual Studio
/// Code is the default.
pub open spec fn mac_editor_base(installed: Seq<bool>) -> Seq<(Seq<char>, Seq<char>, bool)> {
    picked(installed, 8).map_values(
        |k: int| (MAC_EDITORS[k].0@, MAC_EDITORS[k].0@, MAC_EDITORS[k].0@ == "Visual Studio Code"@),
    )
}

/// The installed Linux editors, with their labels, none the default.
pub open spec fn linux_editor_base(installed: Seq<bool>) -> Seq<(Seq<char>, Seq<char>, bool)> {
    picked(installed, 10).map_values(|k: int| (LINUX_EDITORS[k].0@, LINUX_EDITORS[k].1@, false))
}

/// The installed Windows editors, with their labels, `code` the default;
/// Notepad alone when none is found.
pub open spec fn spec_windows_editors(installed: Seq<bool>) -> Seq<(Seq<char>, Seq<char>, bool)> {
    let base = picked(installed, 5).map_values(
        |k: int| (WINDOWS_EDITORS[k].0@, WINDOWS_EDITORS[k].1@, WINDOWS_EDITORS[k].0@ == "code"@),
    );
    if base.len() == 0 {
        seq![("notepad"@, "Notepad"@, true)]
    } else {
        base
    }
}

/// A list with `$EDITOR` in front, as the only default, when it is set
/// and not empty.
pub open spec fn with_editor_var(
    base: Seq<(Seq<char>, Seq<char>, bool)>,
    editor_var: Option<Seq<char>>,
) -> Seq<(Seq<char>, Seq<char>, bool)> {
    match editor_var {
        Some(ed) => if ed.len() > 0 {
            seq![("$EDITOR:"@ + ed, "$EDITOR ("@ + ed + ")"@, true)] + base.map_values(
                |e: (Seq<char>, Seq<char>, bool)| (e.0, e.1, false),
            )
        } else {
            base
        },
        None => base,
    }
}

/// The editors offered on a platform, given which candidates are
/// installed and the value of `$EDITOR`.
pub open spec fn spec_list_editors(
    platform: Platform,
    installed: Seq<bool>,
    editor_var: Option<Seq<char>>,
) -> Seq<(Seq<char>, Seq<char>, bool)> {
    match platform {
        Platform::MacOs => with_editor_var(mac_editor_base(installed), editor_var),
        Platform::Linux => with_editor_var(linux_editor_base(installed), editor_var),
        Platform::Windows => spec_windows_editors(installed),
    }
}

/// The number of editor candidates probed on a platform.
pub open spec fn editor_candidates(platform: Platform) -> nat {
    match platform {
        Platform::MacOs => 8,
        Platform::Linux => 10,
        Platform::Windows => 5,
    }
}

/// An entry.
fn editor(id: &str, label: &str, is_default: bool) -> (e: EditorApp)
    ensures
        editor_view(e) == (id@, label@, is_default),
{
    EditorApp { id: id.to_owned(), label: label.to_owned(), is_default }
}

/// The installed candidates of an editor table, in order.
fn pick_editors(
    table: &[(&'static str, &'static str)],
    installed: &[bool],
    use_label: bool,
    default_id: Option<&str>,
) -> (r: Vec<EditorApp>)
    requires
        installed@.len() == table@.len(),
    ensures
        r@.map_values(|e: EditorApp| editor_view(e)) == picked(
            installed@,
            table@.len() as int,
        ).map_values(
            |k: int|
                (
                    table@[k].0@,
                    if use_label {
                        table@[k].1@
                    } else {
                        table@[k].0@
                    },
                    match default_id {
                        Some(d) => table@[k].0@ == d@,
                        None => false,
                    },
                ),
        ),
{
    let mut out: Vec<EditorApp> = Vec::new();
    let mut k: usize = 0;
    while k < table.len()
        invariant
            k <= table@.len(),
            installed@.len() == table@.len(),
            out@.map_values(|e: EditorApp| editor_view(e)) == picked(installed@, k as int).map_values(
                |j: int|
                    (
                        table@[j].0@,
                        if use_label {
                            table@[j].1@
                        } else {
                            table@[j].0@
                        },
                        match default_id {
                            Some(d) => table@[j].0@ == d@,
                            None => false,
                        },
                    ),
            ),
        decreases table@.len() - k,
    {
        let ghost before = out@.map_values(|e: EditorApp| editor_view(e));
        if installed[k] {
            let (id, label) = table[k];
            let d = match default_id {
                Some(x) => str_eq(id, x),
                None => false,
            };
            out.push(
                editor(
                    id,
                    if use_label {
                        label
                    } else {
                        id
                    },
                    d,
                ),
            );
            assert(out@.map_values(|e: EditorApp| editor_view(e)) =~= before.push(
                (
                    table@[k as int].0@,
                    if use_label {
                        table@[k as int].1@
                    } else {
                        table@[k as int].0@
                    },
                    d,
                ),
            ));
        }
        assert(picked(installed@, k + 1).map_values(
            |j: int|
                (
                    table@[j].0@,
                    if use_label {
                        table@[j].1@
                    } else {
                        table@[j].0@
                    },
                    match default_id {
                        Some(d) => table@[j].0@ == d@,
                        None => false,
                    },
                ),
        ) =~= out@.map_values(|e: EditorApp| editor_view(e)));
        k = k + 1;
    }
    out
}

/// `$EDITOR` in front of the list, as the only default, when it is set and
/// not empty.
fn add_editor_var(base: Vec<EditorApp>, editor_var: Option<String>) -> (r: Vec<EditorApp>)
    ensures
        r@.map_values(|e: EditorApp| editor_view(e)) == with_editor_var(
            base@.map_values(|e: EditorApp| editor_view(e)),
            match editor_var {
                Some(s) => Some(s@),
                None => None,
            },
        ),
{
    match editor_var {
        Some(ed) => {
            if chars_of(ed.as_str()).len() == 0 {
                return base;
            }
            let mut out: Vec<EditorApp> = Vec::new();
            out.push(
                editor(
                    concat("$EDITOR:", ed.as_str()).as_str(),
                    concat(&concat("$EDITOR (", ed.as_str()), ")").as_str(),
                    true,
                ),
            );
            let ghost bv = base@.map_values(|e: EditorApp| editor_view(e));
            let ghost head = seq![("$EDITOR:"@ + ed@, "$EDITOR ("@ + ed@ + ")"@, true)];
            let mut i: usize = 0;
            while i < base.len()
                invariant
                    i <= base@.len(),
                    bv == base@.map_values(|e: EditorApp| editor_view(e)),
                    out@.map_values(|e: EditorApp| editor_view(e)) == head + bv.take(
                        i as int,
                    ).map_values(|e: (Seq<char>, Seq<char>, bool)| (e.0, e.1, false)),
                decreases base@.len() - i,
            {
                let ghost prev = out@.map_values(|e: EditorApp| editor_view(e));
                out.push(editor(base[i].id.as_str(), base[i].label.as_str(), false));
                assert(out@.map_values(|e: EditorApp| editor_view(e)) =~= prev.push(
                    (bv[i as int].0, bv[i as int].1, false),
                ));
                assert(bv.take(i + 1).map_values(|e: (Seq<char>, Seq<char>, bool)| (e.0, e.1, false))
                    =~= bv.take(i as int).map_values(
                    |e: (Seq<char>, Seq<char>, bool)| (e.0, e.1, false),
                ).push((bv[i as int].0, bv[i as int].1, false)));
                i = i + 1;
            }
            assert(bv.take(bv.len() as int) =~= bv);
            out
        },
        None => base,
    }
}

/// The editors offered on a platform: `installed[k]` says whether the
/// platform's `k`-th candidate is installed; `editor_var` is `$EDITOR`.
pub fn list_editors(platform: Platform, installed: &[bool], editor_var: Option<String>) -> (r: Vec<
    EditorApp,
>)
    requires
        installed@.len() == editor_candidates(platform),
    ensures
        r@.map_values(|e: EditorApp| editor_view(e)) == spec_list_editors(
            platform,
            installed@,
            match editor_var {
                Some(s) => Some(s@),
                None => None,
            },
        ),
{
    match platform {
        Platform::MacOs => {
            let base = pick_editors(&MAC_EDITORS, installed, false, Some("Visual Studio Code"));
            assert(base@.map_values(|e: EditorApp| editor_view(e)) =~= mac_editor_base(installed@));
            add_editor_var(base, editor_var)
        },
        Platform::Linux => {
            let base = pick_editors(&LINUX_EDITORS, installed, true, None);
            assert(base@.map_values(|e: EditorApp| editor_view(e)) =~= linux_editor_base(installed@));
            add_editor_var(base, editor_var)
        },
        Platform::Windows => {
            let base = pick_editors(&WINDOWS_EDITORS, installed, true, Some("code"));
            assert(base@.map_values(|e: EditorApp| editor_view(e)) =~= picked(installed@, 5).map_values(
                |k: int|
                    (WINDOWS_EDITORS[k].0@, WINDOWS_EDITORS[k].1@, WINDOWS_EDITORS[k].0@ == "code"@),
            ));
            if base.len() == 0 {
                let mut only: Vec<EditorApp> = Vec::new();
                only.push(editor("notepad", "Notepad", true));
                assert(only@.map_values(|e: EditorApp| editor_view(e)) =~= seq![
                    ("notepad"@, "Notepad"@, true),
                ]);
                only
            } else {
                base
            }
        },
    }
}

} // verus!
