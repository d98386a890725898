//! The node host: `system.which` and `system.run` results, and the exec approval socket
//! (where it listens, which requests it answers, and the answer line).
use vstd::prelude::*;
use crate::device_auth::views;
use crate::exec_approvals::{accepted_request, accepts_exec_request, ExecSocketConfig};
use crate::json::{json_quote, json_string_literal};
use crate::openclaw_config::osv;
use crate::paths::{join_path, path_join};
use crate::text::{non_blank, non_blank_of, opt_as_str, opt_view};

verus! {

/// Where `which` found a binary.
#[derive(Debug, Clone)]
pub struct WhichResult {
    pub path: Option<String>,
}

/// Reads `which` output: the trimmed standard output of a successful run when it is
/// valid UTF-8 and not blank (`stdout` is `None` when it was not UTF-8).
pub fn which_result(success: bool, stdout: Option<String>) -> (r: WhichResult)
    ensures
        success ==> osv(r.path) == non_blank(osv(stdout)),
        !success ==> r.path is None,
{
    if !success {
        return WhichResult { path: None };
    }
    let path = non_blank_of(opt_as_str(&stdout));
    WhichResult { path }
}

/// The shell a command runs under: `$SHELL` when set, else `sh`.
pub open spec fn shell_of(shell_env: Option<Seq<char>>) -> Seq<char> {
    match shell_env {
        Some(s) => s,
        None => "sh"@,
    }
}

/// The program and arguments that run `command` as a login shell command.
pub fn shell_invocation(shell_env: Option<String>, command: &str) -> (r: (String, Vec<String>))
    ensures
        r.0@ == shell_of(osv(shell_env)),
        views(r.1@) == seq!["-lc"@, command@],
{
    let program = match shell_env {
        Some(s) => s,
        None => String::from_str("sh"),
    };
    let mut args: Vec<String> = Vec::new();
    args.push(String::from_str("-lc"));
    args.push(String::from_str(command));
    assert(views(args@) =~= seq!["-lc"@, command@]);
    (program, args)
}

/// The result of `system.run`: the exit code (`-1` when the process ended by a signal)
/// with the captured output.
pub fn run_outcome(code: Option<i32>, stdout: String, stderr: String) -> (r: (i32, String, String))
    ensures
        r.0 == match code {
            Some(c) => c,
            None => -1i32,
        },
        r.1@ == stdout@,
        r.2@ == stderr@,
{
    let c = match code {
        Some(c) => c,
        None => -1,
    };
    (c, stdout, stderr)
}

/// `$XDG_RUNTIME_DIR` as `dirs::runtime_dir` finds it, as text. Nothing is stated of the
/// answer: it depends on the environment.
#[verifier::external_body]
fn runtime_dir() -> (r: Option<String>) {
    dirs::runtime_dir().map(|p| p.to_string_lossy().into_owned())
}

/// The local data directory as `dirs::data_local_dir` finds it, as text. Nothing is
/// stated of the answer: it depends on the environment.
#[verifier::external_body]
fn data_local_dir() -> (r: Option<String>) {
    dirs::data_local_dir().map(|p| p.to_string_lossy().into_owned())
}

/// A fresh random UUID (`Uuid::new_v4`) in its hyphenated form, 36 characters long.
#[verifier::external_body]
fn new_uuid_v4() -> (r: String)
    ensures
        r@.len() == 36,
{
    uuid::Uuid::new_v4().to_string()
}

/// The directory the approval socket lives in: `openclaw` under the runtime directory,
/// else under the local data directory, else under `/tmp`.
pub open spec fn socket_dir_of(runtime: Option<Seq<char>>, data_local: Option<Seq<char>>) -> Seq<
    char,
> {
    path_join(
        match runtime {
            Some(r) => r,
            None => match data_local {
                Some(d) => d,
                None => "/tmp"@,
            },
        },
        "openclaw"@,
    )
}

/// The approval socket's configuration for the given directories and token.
pub fn socket_config_for(runtime: Option<&str>, data_local: Option<&str>, token: String) -> (r:
    ExecSocketConfig)
    ensures
        r.socket_path@ == path_join(
            socket_dir_of(opt_view(runtime), opt_view(data_local)),
            "exec-approvals.sock"@,
        ),
        r.token@ == token@,
{
    let base = match runtime {
        Some(r) => r,
        None => match data_local {
            Some(d) => d,
            None => "/tmp",
        },
    };
    let dir = join_path(base, "openclaw");
    ExecSocketConfig { socket_path: join_path(dir.as_str(), "exec-approvals.sock"), token }
}

impl ExecSocketConfig {
    /// The socket under the user's runtime directory (see `socket_dir_of`) and a fresh
    /// random token. The directory itself is created by the caller.
    pub fn default_paths() -> (r: Self)
        ensures
            exists|rt: Option<Seq<char>>, dl: Option<Seq<char>>|
                r.socket_path@ == path_join(#[trigger] socket_dir_of(rt, dl), "exec-approvals.sock"@),
            r.token@.len() == 36,
    {
        let rt = runtime_dir();
        let dl = data_local_dir();
        let token = new_uuid_v4();
        socket_config_for(opt_as_str(&rt), opt_as_str(&dl), token)
    }
}

/// The exec approval socket server: its configuration and the prompt that asks the
/// user about a request.
pub struct ExecSocketServer<P> {
    pub config: ExecSocketConfig,
    pub prompt: P,
}

/// The line sent back for a decision: `{"type":"exec.approval.decision","id":…,"decision":…}`
/// and a newline.
pub open spec fn decision_line_of(id: Seq<char>, decision: Seq<char>) -> Seq<char> {
    "{\"type\":"@ + json_string_literal("exec.approval.decision"@) + ",\"id\":"@
        + json_string_literal(id) + ",\"decision\":"@ + json_string_literal(decision) + "}\n"@
}

impl<P> ExecSocketServer<P> {
    /// A server for `config` that asks `prompt`.
    pub fn new(config: ExecSocketConfig, prompt: P) -> (r: Self)
        ensures
            r.config == config,
            r.prompt == prompt,
    {
        ExecSocketServer { config, prompt }
    }

    /// Whether a request line of type `kind` with `token` is answered: an approval
    /// request carrying this server's token.
    pub fn accepts(&self, kind: &str, token: &str) -> (r: bool)
        ensures
            r == accepted_request(kind@, token@, self.config.token@),
    {
        accepts_exec_request(kind, token, self.config.token.as_str())
    }
}

/// The answer line for request `id` (see `decision_line_of`).
pub fn decision_line(id: &str, decision: &str) -> (r: String)
    ensures
        r@ == decision_line_of(id@, decision@),
{
    let mut s = String::from_str("{\"type\":");
    s.append(json_quote("exec.approval.decision").as_str());
    s.append(",\"id\":");
    s.append(json_quote(id).as_str());
    s.append(",\"decision\":");
    s.append(json_quote(decision).as_str());
    s.append("}\n");
    s
}

} // verus!
