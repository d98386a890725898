//! The user-level desktop entry and icons that let taskbars find the app's icon.
use vstd::prelude::*;
use crate::cli_install::is_file;
use crate::device_auth::views;
use crate::paths::{join_path, path_join};
use crate::text::{chars_of, is_ws, is_ws_char, opt_view, string_from_chars};

verus! {

/// The application id (GApplication id, desktop file and icon name).
pub const APP_ID: &'static str = "ai.openclaw.linux";

/// The icon name in the hicolor theme.
pub const ICON_NAME: &'static str = "ai.openclaw.linux";

/// The environment variable that turns desktop integration off.
pub const SKIP_ENV: &'static str = "OPENCLAW_SKIP_DESKTOP_INTEGRATION";

/// `s` with every `"` preceded by a backslash.
pub open spec fn escape_double_quotes(s: Seq<char>) -> Seq<char>
    decreases s.len(),
{
    if s.len() == 0 {
        Seq::empty()
    } else {
        escape_double_quotes(s.drop_last()) + if s.last() == '"' {
            seq!['\\', '"']
        } else {
            seq![s.last()]
        }
    }
}

/// A path needs quoting in an `Exec=` line when it holds whitespace or a `"`.
pub open spec fn needs_quotes(s: Seq<char>) -> bool {
    exists|i: int| 0 <= i < s.len() && (is_ws(#[trigger] s[i]) || s[i] == '"')
}

/// The path as an `Exec=` line writes it: in double quotes, inner quotes escaped, when
/// it needs quoting; else as it is.
pub open spec fn desktop_exec_of(path: Seq<char>) -> Seq<char> {
    if needs_quotes(path) {
        seq!['"'] + escape_double_quotes(path) + seq!['"']
    } else {
        path
    }
}

/// Quotes a path for an `Exec=` line (see `desktop_exec_of`).
pub fn shell_escape(path: &str) -> (r: String)
    ensures
        r@ == desktop_exec_of(path@),
{
    let v = chars_of(path);
    let mut quote = false;
    let mut i: usize = 0;
    while i < v.len()
        invariant
            i <= v.len(),
            v@ == path@,
            quote <==> exists|k: int| 0 <= k < i && (is_ws(#[trigger] v@[k]) || v@[k] == '"'),
        decreases v.len() - i,
    {
        if is_ws_char(v[i]) || v[i] == '"' {
            quote = true;
        }
        i = i + 1;
    }
    if !quote {
        return String::from_str(path);
    }
    let mut out: Vec<char> = Vec::new();
    out.push('"');
    let mut j: usize = 0;
    while j < v.len()
        invariant
            j <= v.len(),
            v@ == path@,
            out@ == seq!['"'] + escape_double_quotes(v@.take(j as int)),
        decreases v.len() - j,
    {
        proof {
            assert(v@.take(j + 1).drop_last() =~= v@.take(j as int));
        }
        if v[j] == '"' {
            out.push('\\');
            out.push('"');
        } else {
            out.push(v[j]);
        }
        j = j + 1;
        proof {
            assert(out@ =~= seq!['"'] + escape_double_quotes(v@.take(j as int)));
        }
    }
    out.push('"');
    proof {
        assert(v@.take(j as int) =~= v@);
    }
    string_from_chars(&out)
}

/// The system-wide desktop entry of the app.
pub open spec fn system_desktop_entry_text() -> Seq<char> {
    "/usr/share/applications/ai.openclaw.linux.desktop"@
}

/// The system-wide desktop entry path (see `system_desktop_entry_text`).
pub fn system_desktop_entry() -> (r: String)
    ensures
        r@ == system_desktop_entry_text(),
{
    let mut name = String::from_str(APP_ID);
    name.append(".desktop");
    proof {
        reveal_strlit("ai.openclaw.linux");
        reveal_strlit(".desktop");
        reveal_strlit("ai.openclaw.linux.desktop");
        assert(name@ =~= "ai.openclaw.linux.desktop"@);
    }
    let r = join_path("/usr/share/applications", name.as_str());
    proof {
        reveal_strlit("/usr/share/applications");
        reveal_strlit("/usr/share/applications/ai.openclaw.linux.desktop");
        reveal_strlit("/");
        assert(r@ =~= system_desktop_entry_text());
    }
    r
}

/// Whether the app is installed system-wide: its desktop entry exists as a file.
/// Nothing is stated of the answer, which depends on the filesystem.
pub fn system_desktop_installed() -> (r: bool) {
    let path = system_desktop_entry();
    is_file(path.as_str())
}

/// Desktop integration runs unless it is switched off or the app is installed
/// system-wide.
pub fn should_integrate(skip_env_set: bool, system_installed: bool) -> (r: bool)
    ensures
        r == (!skip_env_set && !system_installed),
{
    !skip_env_set && !system_installed
}

/// Where the app's icon may be, in the order tried: in the repository when its root is
/// known, then next to the executable, in the source tree above it, and in an installed
/// share directory.
pub open spec fn icon_candidates_of(repo_root: Option<Seq<char>>, exe_dir: Option<Seq<char>>) -> Seq<
    Seq<char>,
> {
    (match repo_root {
        Some(root) => seq![path_join(root, "apps/linux/openclaw-app/src-tauri/icons/icon.png"@)],
        None => Seq::empty(),
    }) + match exe_dir {
        Some(dir) => seq![
            path_join(dir, "icons/icon.png"@),
            path_join(dir, "../../openclaw-app/src-tauri/icons/icon.png"@),
            path_join(dir, "../share/icons/hicolor/512x512/apps/ai.openclaw.linux.png"@),
        ],
        None => Seq::empty(),
    }
}

/// The candidate icon files (see `icon_candidates_of`).
pub fn icon_candidates(repo_root: Option<&str>, exe_dir: Option<&str>) -> (r: Vec<String>)
    ensures
        views(r@) == icon_candidates_of(opt_view(repo_root), opt_view(exe_dir)),
{
    let mut v: Vec<String> = Vec::new();
    match repo_root {
        Some(root) => v.push(join_path(root, "apps/linux/openclaw-app/src-tauri/icons/icon.png")),
        None => {},
    }
    match exe_dir {
        Some(dir) => {
            v.push(join_path(dir, "icons/icon.png"));
            v.push(join_path(dir, "../../openclaw-app/src-tauri/icons/icon.png"));
            v.push(join_path(dir, "../share/icons/hicolor/512x512/apps/ai.openclaw.linux.png"));
        },
        None => {},
    }
    assert(views(v@) =~= icon_candidates_of(opt_view(repo_root), opt_view(exe_dir)));
    v
}

/// A directory under the user's home, or the error when `HOME` is not set.
pub fn user_data_dir(home: Option<&str>, sub: &str) -> (r: Result<String, String>)
    ensures
        match opt_view(home) {
            Some(h) => r matches Ok(p) && p@ == path_join(h, sub@),
            None => r matches Err(e) && e@ == "HOME is not set"@,
        },
{
    match home {
        Some(h) => Ok(join_path(h, sub)),
        None => Err(String::from_str("HOME is not set")),
    }
}

/// The icon sizes installed.
pub open spec fn icon_size_list() -> Seq<Seq<char>> {
    seq!["32x32"@, "128x128"@, "256x256"@, "512x512"@]
}

/// The hicolor directories the icon goes into, one per size, under `base`.
pub fn icon_install_dirs(base: &str) -> (r: Vec<String>)
    ensures
        r@.len() == icon_size_list().len(),
        forall|i: int|
            0 <= i < r@.len() ==> (#[trigger] r@[i])@ == path_join(
                path_join(base@, icon_size_list()[i]),
                "apps"@,
            ),
{
    let mut v: Vec<String> = Vec::new();
    let a = join_path(base, "32x32");
    v.push(join_path(a.as_str(), "apps"));
    let b = join_path(base, "128x128");
    v.push(join_path(b.as_str(), "apps"));
    let c = join_path(base, "256x256");
    v.push(join_path(c.as_str(), "apps"));
    let d = join_path(base, "512x512");
    v.push(join_path(d.as_str(), "apps"));
    v
}

/// The desktop entry text for the executable at `exe_path`.
pub open spec fn desktop_entry_of(exe_path: Seq<char>) -> Seq<char> {
    "[Desktop Entry]\nType=Application\nVersion=1.0\nName=OpenClaw\nGenericName=OpenClaw Linux companion\nComment=OpenClaw Linux companion\nExec="@
        + desktop_exec_of(exe_path)
        + " %U\nIcon=ai.openclaw.linux\nTerminal=false\nCategories=Network;Chat;\nMimeType=x-scheme-handler/openclaw;\nStartupWMClass=ai.openclaw.linux\nStartupNotify=true\n"@
}

/// The desktop entry for the executable at `exe_path` (see `desktop_entry_of`).
pub fn desktop_entry(exe_path: &str) -> (r: String)
    ensures
        r@ == desktop_entry_of(exe_path@),
{
    let mut s = String::from_str(
        "[Desktop Entry]\nType=Application\nVersion=1.0\nName=OpenClaw\nGenericName=OpenClaw Linux companion\nComment=OpenClaw Linux companion\nExec=",
    );
    let exec = shell_escape(exe_path);
    s.append(exec.as_str());
    s.append(
        " %U\nIcon=ai.openclaw.linux\nTerminal=false\nCategories=Network;Chat;\nMimeType=x-scheme-handler/openclaw;\nStartupWMClass=ai.openclaw.linux\nStartupNotify=true\n",
    );
    s
}

} // verus!
