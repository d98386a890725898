//! CLI install and detection helpers.
use vstd::prelude::*;
use crate::device_auth::views;
use crate::encoding::{signed_decimal, signed_decimal_string};
use crate::paths::{
    first_accepted, join_path, lemma_first_true_in_range, opt_string, path_join, pick_first, state_dir,
    state_dir_of,
};
use crate::text::{chars_of, push_str, string_from_chars, opt_view, trim, trim_string};

verus! {

/// Characters that a POSIX shell reads literally outside quotes (as this library escapes).
pub open spec fn shell_safe(c: char) -> bool {
    ('a' <= c && c <= 'z') || ('A' <= c && c <= 'Z') || ('0' <= c && c <= '9') || c == '.' || c
        == '_' || c == '-' || c == '/' || c == '+'
}

/// Every single quote of `s` written as `'\''`.
pub open spec fn escape_single_quotes(s: Seq<char>) -> Seq<char>
    decreases s.len(),
{
    if s.len() == 0 {
        Seq::empty()
    } else {
        escape_single_quotes(s.drop_last()) + (if s.last() == '\'' {
            "'\\''"@
        } else {
            seq![s.last()]
        })
    }
}

/// `s` unchanged when every character is shell-safe, else single-quoted.
pub open spec fn shell_quoted(s: Seq<char>) -> Seq<char> {
    if forall|i: int| 0 <= i < s.len() ==> shell_safe(#[trigger] s[i]) {
        s
    } else {
        "'"@ + escape_single_quotes(s) + "'"@
    }
}

/// The installer command for `version` with install prefix `prefix`.
pub open spec fn install_command(version: Seq<char>, prefix: Seq<char>) -> Seq<char> {
    "curl -fsSL https://openclaw.bot/install-cli.sh | bash -s -- --json --no-onboard --prefix "@
        + shell_quoted(prefix) + " --version "@ + shell_quoted(version)
}

/// Splits `s` at every `c`, keeping empty pieces (`str::split`).
pub open spec fn split_char(s: Seq<char>, c: char) -> Seq<Seq<char>>
    decreases s.len(),
{
    if s.len() == 0 {
        seq![Seq::empty()]
    } else {
        let r = split_char(s.drop_last(), c);
        if s.last() == c {
            r.push(Seq::empty())
        } else {
            r.update(r.len() - 1, r.last().push(s.last()))
        }
    }
}

/// The non-empty pieces of `ss`, in order.
pub open spec fn non_empty_pieces(ss: Seq<Seq<char>>) -> Seq<Seq<char>>
    decreases ss.len(),
{
    if ss.len() == 0 {
        Seq::empty()
    } else {
        let r = non_empty_pieces(ss.drop_last());
        if ss.last().len() > 0 {
            r.push(ss.last())
        } else {
            r
        }
    }
}

/// Directories to search for the CLI, in order: `~/.openclaw/bin`, `~/.local/bin`
/// (when `HOME` is set), the non-empty entries of `PATH`, then `/usr/local/bin`, `/usr/bin`.
pub open spec fn cli_search_dirs(home: Option<Seq<char>>, path_var: Option<Seq<char>>) -> Seq<
    Seq<char>,
> {
    (match home {
        Some(h) => seq![path_join(h, ".openclaw/bin"@), path_join(h, ".local/bin"@)],
        None => Seq::empty(),
    }) + (match path_var {
        Some(p) => non_empty_pieces(split_char(p, ':')),
        None => Seq::empty(),
    }) + seq!["/usr/local/bin"@, "/usr/bin"@]
}

proof fn lemma_split_len(s: Seq<char>, c: char)
    ensures
        split_char(s, c).len() >= 1,
    decreases s.len(),
{
    if s.len() > 0 {
        lemma_split_len(s.drop_last(), c);
    }
}

/// `split_char` yields at least one piece.
pub proof fn lemma_split_len_pub(s: Seq<char>, c: char)
    ensures
        split_char(s, c).len() >= 1,
{
    lemma_split_len(s, c);
}

fn shell_safe_char(c: char) -> (b: bool)
    ensures
        b == shell_safe(c),
{
    ('a' <= c && c <= 'z') || ('A' <= c && c <= 'Z') || ('0' <= c && c <= '9') || c == '.' || c
        == '_' || c == '-' || c == '/' || c == '+'
}

/// `raw` as a single shell word: unchanged when every character is shell-safe, else
/// wrapped in single quotes with each inner single quote written as `'\''`.
pub fn shell_escape(raw: &str) -> (r: String)
    ensures
        r@ == shell_quoted(raw@),
{
    let v = chars_of(raw);
    let mut i: usize = 0;
    let mut all_safe = true;
    while i < v.len()
        invariant
            i <= v.len(),
            v@ == raw@,
            all_safe == (forall|k: int| 0 <= k < i ==> shell_safe(#[trigger] v@[k])),
        decreases v.len() - i,
    {
        if !shell_safe_char(v[i]) {
            all_safe = false;
        }
        i = i + 1;
    }
    if all_safe {
        return string_from_chars(&v);
    }
    let mut out: Vec<char> = Vec::new();
    out.push('\'');
    let mut j: usize = 0;
    proof {
        reveal_strlit("'");
        assert(v@.take(0) =~= Seq::<char>::empty());
        assert(out@ =~= "'"@ + escape_single_quotes(v@.take(0)));
    }
    while j < v.len()
        invariant
            j <= v.len(),
            v@ == raw@,
            out@ == "'"@ + escape_single_quotes(v@.take(j as int)),
        decreases v.len() - j,
    {
        proof {
            reveal_strlit("'");
            assert(v@.take(j + 1).drop_last() =~= v@.take(j as int));
        }
        if v[j] == '\'' {
            push_str(&mut out, "'\\''");
        } else {
            out.push(v[j]);
        }
        j = j + 1;
        proof {
            assert(out@ =~= "'"@ + escape_single_quotes(v@.take(j as int)));
        }
    }
    out.push('\'');
    proof {
        reveal_strlit("'");
        assert(v@.take(v.len() as int) =~= v@);
        assert(out@ =~= "'"@ + escape_single_quotes(raw@) + "'"@);
    }
    string_from_chars(&out)
}

/// The default install prefix (`~/.openclaw`).
pub fn default_install_prefix() -> (r: String)
    ensures
        exists|h: Option<Seq<char>>| r@ == state_dir_of(h),
{
    state_dir()
}

fn install_command_with_prefix(version: &str, prefix: &str) -> (r: String)
    ensures
        r@ == install_command(version@, prefix@),
{
    let v = shell_escape(version);
    let p = shell_escape(prefix);
    let mut out = String::from_str(
        "curl -fsSL https://openclaw.bot/install-cli.sh | bash -s -- --json --no-onboard --prefix ",
    );
    out.append(p.as_str());
    out.append(" --version ");
    out.append(v.as_str());
    out
}

/// Shell command run under `bash -lc` that installs the CLI at `version` into the default
/// prefix (JSON install events on stdout).
pub fn install_shell_command(version: &str) -> (r: String)
    ensures
        exists|h: Option<Seq<char>>| r@ == install_command(version@, state_dir_of(h)),
{
    let prefix = default_install_prefix();
    install_command_with_prefix(version, prefix.as_str())
}

/// The non-empty `:`-separated entries of a `PATH` value, in order.
pub fn path_entries(path_var: &str) -> (r: Vec<String>)
    ensures
        r@.len() == non_empty_pieces(split_char(path_var@, ':')).len(),
        forall|i: int|
            0 <= i < r@.len() ==> #[trigger] r@[i]@ == non_empty_pieces(
                split_char(path_var@, ':'),
            )[i],
{
    let v = chars_of(path_var);
    let mut out: Vec<String> = Vec::new();
    let mut cur: Vec<char> = Vec::new();
    let mut i: usize = 0;
    proof {
        assert(v@.take(0) =~= Seq::<char>::empty());
    }
    while i < v.len()
        invariant
            i <= v.len(),
            v@ == path_var@,
            split_char(v@.take(i as int), ':').len() >= 1,
            split_char(v@.take(i as int), ':').last() == cur@,
            out@.len() == non_empty_pieces(split_char(v@.take(i as int), ':').drop_last()).len(),
            forall|k: int|
                0 <= k < out@.len() ==> #[trigger] out@[k]@ == non_empty_pieces(
                    split_char(v@.take(i as int), ':').drop_last(),
                )[k],
        decreases v.len() - i,
    {
        let ghost prev = split_char(v@.take(i as int), ':');
        proof {
            assert(v@.take(i + 1).drop_last() =~= v@.take(i as int));
            assert(v@.take(i + 1).last() == v@[i as int]);
            lemma_split_len(v@.take(i as int), ':');
        }
        if v[i] == ':' {
            if cur.len() > 0 {
                let piece = string_from_chars(&cur);
                out.push(piece);
            }
            proof {
                let next = split_char(v@.take(i + 1), ':');
                assert(next == prev.push(Seq::empty()));
                assert(next.drop_last() =~= prev);
                assert(prev =~= prev.drop_last().push(prev.last()));
            }
            cur = Vec::new();
        } else {
            cur.push(v[i]);
            proof {
                let next = split_char(v@.take(i + 1), ':');
                assert(next == prev.update(prev.len() - 1, prev.last().push(v@[i as int])));
                assert(next.drop_last() =~= prev.drop_last());
            }
        }
        i = i + 1;
    }
    proof {
        assert(v@.take(v.len() as int) =~= v@);
        let all = split_char(v@, ':');
        lemma_split_len(v@, ':');
        assert(all =~= all.drop_last().push(all.last()));
    }
    if cur.len() > 0 {
        let piece = string_from_chars(&cur);
        out.push(piece);
    }
    out
}

/// Search directories for an existing `openclaw` binary (same order as typical login
/// shells), given the `HOME` and `PATH` variables.
pub fn preferred_cli_paths(home: Option<&str>, path_var: Option<&str>) -> (r: Vec<String>)
    ensures
        r@.len() == cli_search_dirs(opt_view(home), opt_view(path_var)).len(),
        forall|i: int|
            0 <= i < r@.len() ==> #[trigger] r@[i]@ == cli_search_dirs(
                opt_view(home),
                opt_view(path_var),
            )[i],
{
    let ghost want = cli_search_dirs(opt_view(home), opt_view(path_var));
    let mut paths: Vec<String> = Vec::new();
    if let Some(h) = home {
        paths.push(join_path(h, ".openclaw/bin"));
        paths.push(join_path(h, ".local/bin"));
        assert(paths@.len() == 2 && paths@[0]@ == path_join(h@, ".openclaw/bin"@) && paths@[1]@
            == path_join(h@, ".local/bin"@));
    } else {
        assert(paths@.len() == 0);
    }
    let ghost head = paths@;
    let parts: Vec<String> = match path_var {
        Some(p) => path_entries(p),
        None => Vec::new(),
    };
    let ghost ps = match opt_view(path_var) {
        Some(p) => non_empty_pieces(split_char(p, ':')),
        None => Seq::<Seq<char>>::empty(),
    };
    assert(parts@.len() == ps.len());
    assert(forall|k: int| 0 <= k < parts@.len() ==> #[trigger] parts@[k]@ == ps[k]);
    let mut i: usize = 0;
    while i < parts.len()
        invariant
            i <= parts.len(),
            paths@.len() == head.len() + i,
            forall|k: int| 0 <= k < head.len() ==> #[trigger] paths@[k] == head[k],
            forall|k: int| 0 <= k < i ==> #[trigger] paths@[head.len() + k]@ == parts@[k]@,
        decreases parts.len() - i,
    {
        paths.push(parts[i].clone());
        i = i + 1;
    }
    let ghost mid = paths@;
    paths.push(String::from_str("/usr/local/bin"));
    paths.push(String::from_str("/usr/bin"));
    proof {
        let hs = match opt_view(home) {
            Some(h) => seq![path_join(h, ".openclaw/bin"@), path_join(h, ".local/bin"@)],
            None => Seq::<Seq<char>>::empty(),
        };
        assert(want == hs + ps + seq!["/usr/local/bin"@, "/usr/bin"@]);
        assert(head.len() == hs.len());
        assert(mid.len() == hs.len() + ps.len());
        assert forall|i: int| 0 <= i < paths@.len() implies #[trigger] paths@[i]@ == want[i] by {
            if i < hs.len() {
                assert(paths@[i] == mid[i]);
                assert(mid[i] == head[i]);
            } else if i < hs.len() + ps.len() {
                let k = i - hs.len();
                assert(paths@[i] == mid[i]);
                assert(mid[head.len() + k]@ == parts@[k]@);
            } else {
            }
        }
    }
    paths
}

/// Whether `path` names an existing regular file (`Path::is_file`); nothing is stated of
/// the answer, which depends on the filesystem.
#[verifier::external_body]
pub(crate) fn is_file(path: &str) -> (r: bool) {
    std::path::Path::new(path).is_file()
}

/// The places the CLI may be installed: `<dir>/openclaw` for each search directory, in
/// order.
pub open spec fn cli_candidates(home: Option<Seq<char>>, path_var: Option<Seq<char>>) -> Seq<Seq<char>> {
    let dirs = cli_search_dirs(home, path_var);
    Seq::new(dirs.len(), |i: int| path_join(dirs[i], "openclaw"@))
}

/// The installed CLI for a run of the file checks (`accepted[i]` answers whether the i-th
/// candidate is a regular file): the first accepted candidate, or `None`.
pub open spec fn installed_location_for(
    home: Option<Seq<char>>,
    path_var: Option<Seq<char>>,
    accepted: Seq<bool>,
) -> Option<Seq<char>> {
    pick_first(cli_candidates(home, path_var), accepted)
}

/// The candidate CLI locations (see `cli_candidates`).
pub fn cli_candidate_paths(home: Option<&str>, path_var: Option<&str>) -> (r: Vec<String>)
    ensures
        views(r@) == cli_candidates(opt_view(home), opt_view(path_var)),
{
    let dirs = preferred_cli_paths(home, path_var);
    let mut out: Vec<String> = Vec::new();
    let mut i: usize = 0;
    while i < dirs.len()
        invariant
            i <= dirs.len(),
            dirs@.len() == cli_search_dirs(opt_view(home), opt_view(path_var)).len(),
            forall|k: int|
                0 <= k < dirs@.len() ==> #[trigger] dirs@[k]@ == cli_search_dirs(
                    opt_view(home),
                    opt_view(path_var),
                )[k],
            out@.len() == i,
            forall|k: int|
                0 <= k < i ==> #[trigger] out@[k]@ == cli_candidates(opt_view(home), opt_view(path_var))[k],
        decreases dirs.len() - i,
    {
        out.push(join_path(dirs[i].as_str(), "openclaw"));
        i = i + 1;
    }
    assert(views(out@) =~= cli_candidates(opt_view(home), opt_view(path_var)));
    out
}

/// Whether each candidate is a regular file, in order.
fn file_flags(candidates: &Vec<String>) -> (r: Vec<bool>)
    ensures
        r.len() == candidates.len(),
{
    let mut r: Vec<bool> = Vec::new();
    let mut i: usize = 0;
    while i < candidates.len()
        invariant
            i <= candidates.len(),
            r.len() == i,
        decreases candidates.len() - i,
    {
        r.push(is_file(candidates[i].as_str()));
        i = i + 1;
    }
    r
}

/// The installed CLI for given file-check answers (see `installed_location_for`).
pub fn installed_location_from(home: Option<&str>, path_var: Option<&str>, accepted: &Vec<bool>) -> (r:
    Option<String>)
    requires
        accepted.len() == cli_candidates(opt_view(home), opt_view(path_var)).len(),
    ensures
        opt_string(r) == installed_location_for(opt_view(home), opt_view(path_var), accepted@),
{
    let c = cli_candidate_paths(home, path_var);
    let r = first_accepted(&c, accepted);
    proof {
        lemma_first_true_in_range(accepted@);
    }
    r
}

/// The first `<dir>/openclaw` among the search directories that is a regular file on
/// disk: the first candidate the file check accepted (see `installed_location_for`).
pub fn installed_location(home: Option<&str>, path_var: Option<&str>) -> (r: Option<String>)
    ensures
        exists|acc: Seq<bool>|
            acc.len() == cli_candidates(opt_view(home), opt_view(path_var)).len() && opt_string(r)
                == #[trigger] installed_location_for(opt_view(home), opt_view(path_var), acc),
{
    let c = cli_candidate_paths(home, path_var);
    let flags = file_flags(&c);
    installed_location_from(home, path_var, &flags)
}

/// The CLI binary when `OPENCLAW_BIN` is not set: the installed location, else plain
/// `openclaw` from `PATH`.
pub open spec fn bin_or_default(installed: Option<Seq<char>>) -> Seq<char> {
    match installed {
        Some(p) => p,
        None => "openclaw"@,
    }
}

/// The `OPENCLAW_BIN` value when it is set and not blank.
pub open spec fn bin_override(env_bin: Option<Seq<char>>) -> Option<Seq<char>> {
    match env_bin {
        Some(b) => if trim(b).len() > 0 {
            Some(b)
        } else {
            None
        },
        None => None,
    }
}

/// CLI binary for gateway subprocesses: a non-blank `OPENCLAW_BIN` value wins (as given),
/// else the installed location, else plain `openclaw` from `PATH`.
pub fn resolve_openclaw_bin(env_bin: Option<&str>, home: Option<&str>, path_var: Option<&str>) -> (r:
    String)
    ensures
        match bin_override(opt_view(env_bin)) {
            Some(b) => r@ == b,
            None => exists|acc: Seq<bool>|
                acc.len() == cli_candidates(opt_view(home), opt_view(path_var)).len() && r@
                    == bin_or_default(#[trigger] installed_location_for(opt_view(home), opt_view(path_var), acc)),
        },
{
    if let Some(b) = env_bin {
        let t = trim_string(b);
        if !t.as_str().is_empty() {
            return String::from_str(b);
        }
    }
    match installed_location(home, path_var) {
        Some(p) => p,
        None => String::from_str("openclaw"),
    }
}

/// The message of a failed CLI install: the exit code (`unknown` when the process was
/// killed by a signal) and standard error.
pub open spec fn install_failure_text(exit_code: Option<i32>, stderr: Seq<char>) -> Seq<char> {
    "install failed (exit code "@ + (match exit_code {
        Some(c) => signed_decimal(c as int),
        None => "unknown"@,
    }) + "): "@ + stderr
}

/// A finished install read as its outcome: standard output on success, else the failure
/// message with the exit code and standard error (see `install_failure_text`).
pub fn install_outcome(success: bool, exit_code: Option<i32>, stdout: String, stderr: String) -> (r:
    Result<String, String>)
    ensures
        success ==> (r matches Ok(o) && o@ == stdout@),
        !success ==> (r matches Err(e) && e@ == install_failure_text(exit_code, stderr@)),
{
    if success {
        return Ok(stdout);
    }
    let mut m = String::from_str("install failed (exit code ");
    match exit_code {
        Some(c) => {
            let d = signed_decimal_string(c);
            m.append(d.as_str());
        },
        None => m.append("unknown"),
    }
    m.append("): ");
    m.append(stderr.as_str());
    Err(m)
}

} // verus!
