use openclaw_linux::exec_approvals::{
    approval_reply, decision_or_deny, missing_file_default, ExecPromptRequest, ExecSocketConfig,
};
use openclaw_linux::node_host::{
    decision_line, run_outcome, shell_invocation, socket_config_for, which_result,
    ExecSocketServer, WhichResult,
};

#[test]
fn which_reads_trimmed_stdout_of_success() {
    let r: WhichResult = which_result(true, Some("/usr/bin/git\n".into()));
    assert_eq!(r.path.as_deref(), Some("/usr/bin/git"));
    assert!(which_result(true, Some("  \n".into())).path.is_none());
    assert!(which_result(false, Some("/usr/bin/git".into())).path.is_none());
    assert!(which_result(true, None).path.is_none());
}

#[test]
fn run_uses_login_shell() {
    let (prog, args) = shell_invocation(Some("/bin/zsh".into()), "echo hi");
    assert_eq!(prog, "/bin/zsh");
    assert_eq!(args, vec!["-lc", "echo hi"]);
    let (prog, _) = shell_invocation(None, "ls");
    assert_eq!(prog, "sh");
    assert_eq!(run_outcome(None, "o".into(), "e".into()), (-1, "o".to_string(), "e".to_string()));
    assert_eq!(run_outcome(Some(3), String::new(), String::new()).0, 3);
}

#[test]
fn decision_line_is_one_json_line() {
    assert_eq!(
        decision_line("abc", "allow"),
        "{\"type\":\"exec.approval.decision\",\"id\":\"abc\",\"decision\":\"allow\"}\n"
    );
    assert_eq!(
        decision_line("a\"b", "deny"),
        "{\"type\":\"exec.approval.decision\",\"id\":\"a\\\"b\",\"decision\":\"deny\"}\n"
    );
}

#[test]
fn socket_paths_and_token() {
    let c = socket_config_for(Some("/run/user/1000"), Some("/home/u/.local/share"), "t".into());
    assert_eq!(c.socket_path, "/run/user/1000/openclaw/exec-approvals.sock");
    let c = socket_config_for(None, Some("/home/u/.local/share/"), "t".into());
    assert_eq!(c.socket_path, "/home/u/.local/share/openclaw/exec-approvals.sock");
    let c = socket_config_for(None, None, "t".into());
    assert_eq!(c.socket_path, "/tmp/openclaw/exec-approvals.sock");
    let d = ExecSocketConfig::default_paths();
    assert_eq!(d.token.len(), 36);
    assert!(d.socket_path.ends_with("/openclaw/exec-approvals.sock"));
}

#[test]
fn server_answers_only_requests_with_its_token() {
    let config = ExecSocketConfig { socket_path: "/tmp/s.sock".into(), token: "secret".into() };
    let server = ExecSocketServer::new(config, |_id: String, _req: ExecPromptRequest| "deny".to_string());
    assert!(server.accepts("exec.approval.request", "secret"));
    assert!(!server.accepts("exec.approval.request", "other"));
    assert!(!server.accepts("ping", "secret"));
    let req = ExecPromptRequest { command: "ls".into(), cwd: None, agent_id: None };
    assert_eq!((server.prompt)("1".into(), req), "deny");
}

#[test]
fn broker_replies() {
    assert_eq!(approval_reply(true, "allow-once"), Ok("allow-once".to_string()));
    assert_eq!(approval_reply(true, "maybe"), Ok("deny".to_string()));
    assert_eq!(approval_reply(false, "allow"), Err("no pending exec approval for id".to_string()));
    assert_eq!(decision_or_deny(None), "deny");
    assert_eq!(decision_or_deny(Some("allow".into())), "allow");
    let f = missing_file_default();
    assert_eq!(f.version, 1);
    assert!(f.agents.is_empty());
}
