//! Exec approval policy file (`~/.openclaw/exec-approvals.json`) and the approval socket.
use vstd::prelude::*;
use crate::encoding::lines_of;
use crate::paths::{path_join, state_dir_of, state_file};
use crate::text::{chars_of, str_eq, string_from_chars};

verus! {

/// The exec approval policy file.
#[derive(Debug, Clone)]
pub struct ExecApprovalsFile {
    pub version: u32,
    pub defaults: ExecDefaults,
    /// Per-agent policies, keyed by agent id (each id at most once).
    pub agents: Vec<(String, ExecAgentPolicy)>,
}

/// Policy that applies when an agent has none of its own.
#[derive(Debug, Clone)]
pub struct ExecDefaults {
    pub security: String,
    pub ask: String,
}

/// An agent's exec policy.
#[derive(Debug, Clone)]
pub struct ExecAgentPolicy {
    pub security: String,
    pub ask: String,
    pub allowlist: Vec<ExecAllowlistEntry>,
}

/// A command pattern that runs without asking.
#[derive(Debug, Clone)]
pub struct ExecAllowlistEntry {
    pub pattern: String,
}

/// An approval request from the node's exec socket.
#[derive(Debug, Clone)]
pub struct ExecPromptRequest {
    pub command: String,
    pub cwd: Option<String>,
    pub agent_id: Option<String>,
}

/// Where the exec approval socket listens and the token clients must present.
#[derive(Debug, Clone)]
pub struct ExecSocketConfig {
    pub socket_path: String,
    pub token: String,
}

impl ExecApprovalsFile {
    /// No agent id appears twice.
    pub open spec fn well_formed(&self) -> bool {
        forall|i: int, j: int|
            0 <= i < j < self.agents@.len() ==> #[trigger] self.agents@[i].0@
                != #[trigger] self.agents@[j].0@
    }

    /// An empty policy file at `version`.
    pub fn empty(version: u32) -> (r: Self)
        ensures
            r.version == version,
            r.defaults.security@ == Seq::<char>::empty(),
            r.defaults.ask@ == Seq::<char>::empty(),
            r.agents@.len() == 0,
            r.well_formed(),
    {
        ExecApprovalsFile {
            version,
            defaults: ExecDefaults { security: String::new(), ask: String::new() },
            agents: Vec::new(),
        }
    }

    /// `~/.openclaw/exec-approvals.json`.
    pub fn default_path() -> (r: String)
        ensures
            exists|h: Option<Seq<char>>| r@ == path_join(state_dir_of(h), "exec-approvals.json"@),
    {
        state_file("exec-approvals.json")
    }
}

impl Default for ExecApprovalsFile {
    /// An empty policy file at version 0.
    fn default() -> (r: Self)
        ensures
            r.version == 0,
            r.agents@.len() == 0,
    {
        ExecApprovalsFile::empty(0)
    }
}

/// A socket client's line is an approval request carrying the expected token.
pub open spec fn accepted_request(kind: Seq<char>, token: Seq<char>, expected: Seq<char>) -> bool {
    kind == "exec.approval.request"@ && token == expected
}

/// The decision sent back for a UI answer: the allow variants as given, anything else
/// `deny`.
pub open spec fn normalized_decision(decision: Seq<char>) -> Seq<char> {
    if decision == "allow"@ || decision == "allow-once"@ || decision == "allow-always"@ {
        decision
    } else {
        "deny"@
    }
}

/// The notification text for a command: its first line (or `command` when it has none),
/// cut to 120 characters.
pub open spec fn prompt_summary(command: Seq<char>) -> Seq<char> {
    let first = if lines_of(command).len() > 0 {
        lines_of(command)[0]
    } else {
        "command"@
    };
    if first.len() > 120 {
        first.take(120)
    } else {
        first
    }
}

/// Whether a socket request is an approval request with the expected token.
pub fn accepts_exec_request(kind: &str, token: &str, expected_token: &str) -> (r: bool)
    ensures
        r == accepted_request(kind@, token@, expected_token@),
{
    str_eq(kind, "exec.approval.request") && str_eq(token, expected_token)
}

/// The decision sent back for a UI answer (see `normalized_decision`).
pub fn normalize_exec_decision(decision: &str) -> (r: String)
    ensures
        r@ == normalized_decision(decision@),
{
    if str_eq(decision, "allow") || str_eq(decision, "allow-once") || str_eq(
        decision,
        "allow-always",
    ) {
        String::from_str(decision)
    } else {
        String::from_str("deny")
    }
}

proof fn lemma_first_line(s: Seq<char>, i: int)
    requires
        0 <= i <= s.len(),
        forall|k: int| 0 <= k < i ==> s[k] != '\n',
        i == s.len() || s[i] == '\n',
    ensures
        crate::cli_install::split_char(s, '\n')[0] == s.take(i),
        crate::cli_install::split_char(s, '\n').len() >= 1,
        i < s.len() ==> crate::cli_install::split_char(s, '\n').len() >= 2,
    decreases s.len(),
{
    crate::discovery::lemma_split_first_pub(s, '\n', i);
    crate::cli_install::lemma_split_len_pub(s, '\n');
    if i < s.len() {
        crate::discovery::lemma_split_has_two_pub(s, '\n', i);
    }
}

/// The notification text for an approval request (see `prompt_summary`).
pub fn exec_prompt_summary(command: &str) -> (r: String)
    ensures
        r@ == prompt_summary(command@),
{
    let v = chars_of(command);
    let mut i: usize = 0;
    while i < v.len() && v[i] != '\n'
        invariant
            i <= v.len(),
            v@ == command@,
            forall|k: int| 0 <= k < i ==> v@[k] != '\n',
        decreases v.len() - i,
    {
        i = i + 1;
    }
    proof {
        lemma_first_line(v@, i as int);
    }
    let ghost p = crate::cli_install::split_char(v@, '\n');
    let first: Vec<char> = if i == v.len() && v.len() == 0 {
        proof {
            assert(p[0].len() == 0);
            assert(lines_of(command@).len() == 0);
        }
        chars_of("command")
    } else {
        let mut end = i;
        if i < v.len() && i > 0 && v[i - 1] == '\r' {
            end = i - 1;
        }
        let f = crate::text::sub_vec(&v, 0, end);
        proof {
            if i < v.len() {
                assert(lines_of(command@)[0] == crate::encoding::strip_cr(p[0]));
                if i > 0 && v@[i - 1] == '\r' {
                    assert(f@ =~= v@.take(i as int).drop_last());
                } else {
                    assert(f@ =~= v@.take(i as int));
                }
            } else {
                assert(p.len() == 1) by {
                    crate::encoding::lemma_split_no_sep(v@, '\n');
                }
                assert(f@ =~= v@.take(i as int));
                assert(lines_of(command@) =~= seq![p[0]]);
            }
        }
        f
    };
    let n = if first.len() > 120 {
        120
    } else {
        first.len()
    };
    let out = crate::text::sub_vec(&first, 0, n);
    proof {
        assert(out@ =~= prompt_summary(command@)) by {
            if first@.len() <= 120 {
                assert(first@.subrange(0, first@.len() as int) =~= first@);
            }
        }
    }
    string_from_chars(&out)
}

/// The policy used when the file does not exist yet: empty, at version 1.
pub fn missing_file_default() -> (r: ExecApprovalsFile)
    ensures
        r.version == 1,
        r.agents@.len() == 0,
        r.defaults.security@.len() == 0,
        r.defaults.ask@.len() == 0,
        r.well_formed(),
{
    ExecApprovalsFile::empty(1)
}

/// The reply to a UI decision for a pending request: the normalized decision, or an
/// error when no request with that id is pending.
pub fn approval_reply(pending: bool, decision: &str) -> (r: Result<String, String>)
    ensures
        pending ==> (r matches Ok(d) && d@ == normalized_decision(decision@)),
        !pending ==> (r matches Err(e) && e@ == "no pending exec approval for id"@),
{
    if pending {
        Ok(normalize_exec_decision(decision))
    } else {
        Err(String::from_str("no pending exec approval for id"))
    }
}

/// The decision for a prompt: the UI's answer, or `deny` when none came.
pub fn decision_or_deny(answer: Option<String>) -> (r: String)
    ensures
        match answer {
            Some(a) => r@ == a@,
            None => r@ == "deny"@,
        },
{
    match answer {
        Some(a) => a,
        None => String::from_str("deny"),
    }
}

/// A normalized decision is one of the four the node understands, and normalizing it
/// again leaves it as it is.
pub proof fn law_decision_normalization_settles(decision: Seq<char>)
    ensures
        normalized_decision(normalized_decision(decision)) == normalized_decision(decision),
        normalized_decision(decision) == "allow"@ || normalized_decision(decision) == "allow-once"@
            || normalized_decision(decision) == "allow-always"@ || normalized_decision(decision)
            == "deny"@,
{
}

/// The exec approval requests waiting for an answer from the UI, by id.
pub struct PendingApprovals {
    ids: Vec<String>,
}

impl PendingApprovals {
    /// No id is held twice.
    pub closed spec fn well_formed(&self) -> bool {
        forall|i: int, j: int|
            0 <= i < j < self.ids@.len() ==> #[trigger] self.ids@[i]@ != #[trigger] self.ids@[j]@
    }

    /// The ids waiting for an answer.
    pub closed spec fn pending_set(&self) -> Set<Seq<char>> {
        crate::device_auth::views(self.ids@).to_set()
    }

    /// Nothing pending.
    pub fn new() -> (r: Self)
        ensures
            r.well_formed(),
            r.pending_set() == Set::<Seq<char>>::empty(),
    {
        let r = PendingApprovals { ids: Vec::new() };
        assert(r.pending_set() =~= Set::<Seq<char>>::empty());
        r
    }

    fn position(&self, id: &str) -> (r: Option<usize>)
        ensures
            match r {
                Some(i) => i < self.ids@.len() && self.ids@[i as int]@ == id@,
                None => !self.pending_set().contains(id@),
            },
    {
        let mut i: usize = 0;
        while i < self.ids.len()
            invariant
                i <= self.ids@.len(),
                forall|k: int| 0 <= k < i ==> self.ids@[k]@ != id@,
            decreases self.ids.len() - i,
        {
            if str_eq(self.ids[i].as_str(), id) {
                return Some(i);
            }
            i = i + 1;
        }
        proof {
            if self.pending_set().contains(id@) {
                let vs = crate::device_auth::views(self.ids@);
                let k = choose|k: int| 0 <= k < vs.len() && vs[k] == id@;
                assert(self.ids@[k]@ == id@);
            }
        }
        None
    }

    /// A prompt for `id` now waits for an answer (a second prompt with the same id takes
    /// its place).
    pub fn register(&mut self, id: &str)
        requires
            old(self).well_formed(),
        ensures
            final(self).well_formed(),
            final(self).pending_set() == old(self).pending_set().insert(id@),
    {
        match self.position(id) {
            Some(i) => {
                proof {
                    let vs = crate::device_auth::views(self.ids@);
                    assert(vs[i as int] == id@);
                    assert(vs.contains(id@));
                    assert(old(self).pending_set().insert(id@) =~= old(self).pending_set());
                }
            },
            None => {
                let ghost before = self.ids@;
                self.ids.push(String::from_str(id));
                proof {
                    let vb = crate::device_auth::views(before);
                    let va = crate::device_auth::views(self.ids@);
                    assert(va =~= vb.push(id@));
                    assert forall|x: Seq<char>| va.to_set().contains(x) <==> vb.to_set().insert(id@).contains(x) by {
                        if va.contains(x) {
                            let k = choose|k: int| 0 <= k < va.len() && va[k] == x;
                            if k < vb.len() {
                                assert(vb[k] == x);
                            }
                        }
                        if vb.contains(x) {
                            let k = choose|k: int| 0 <= k < vb.len() && vb[k] == x;
                            assert(va[k] == x);
                        }
                        if x == id@ {
                            assert(va[vb.len() as int] == x);
                        }
                    }
                    assert(va.to_set() =~= vb.to_set().insert(id@));
                    assert forall|i: int, j: int|
                        0 <= i < j < self.ids@.len() implies #[trigger] self.ids@[i]@
                        != #[trigger] self.ids@[j]@ by {
                        if j == before.len() {
                            assert(vb[i] == before[i]@);
                            assert(vb.contains(before[i]@));
                        }
                    }
                }
            },
        }
    }

    /// The UI's answer `decision` for `id`: when `id` is pending, the normalized decision
    /// (the allow variants as given, anything else `deny`) and `id` is no longer pending;
    /// otherwise the error `no pending exec approval for id` and nothing changes.
    pub fn resolve(&mut self, id: &str, decision: &str) -> (r: Result<String, String>)
        requires
            old(self).well_formed(),
        ensures
            final(self).well_formed(),
            old(self).pending_set().contains(id@) ==> (r matches Ok(d) && d@ == normalized_decision(
                decision@,
            ) && final(self).pending_set() == old(self).pending_set().remove(id@)),
            !old(self).pending_set().contains(id@) ==> (r matches Err(e) && e@
                == "no pending exec approval for id"@ && final(self).pending_set() == old(
                self,
            ).pending_set()),
    {
        match self.position(id) {
            None => approval_reply(false, decision),
            Some(i) => {
                let ghost before = self.ids@;
                proof {
                    let vb = crate::device_auth::views(before);
                    assert(vb[i as int] == id@);
                    assert(vb.contains(id@));
                }
                self.ids.remove(i);
                proof {
                    let vb = crate::device_auth::views(before);
                    let va = crate::device_auth::views(self.ids@);
                    assert(self.ids@ =~= before.remove(i as int));
                    assert forall|x: Seq<char>| va.to_set().contains(x) <==> vb.to_set().remove(id@).contains(x) by {
                        if va.contains(x) {
                            let k = choose|k: int| 0 <= k < va.len() && va[k] == x;
                            if k < i {
                                assert(vb[k] == x);
                                assert(before[k]@ != before[i as int]@);
                            } else {
                                assert(vb[k + 1] == x);
                                assert(before[i as int]@ != before[k + 1]@);
                            }
                        }
                        if vb.contains(x) && x != id@ {
                            let k = choose|k: int| 0 <= k < vb.len() && vb[k] == x;
                            if k < i {
                                assert(va[k] == x);
                            } else {
                                assert(k != i);
                                assert(va[k - 1] == x);
                            }
                        }
                    }
                    assert(va.to_set() =~= vb.to_set().remove(id@));
                    assert forall|a: int, b: int|
                        0 <= a < b < self.ids@.len() implies #[trigger] self.ids@[a]@
                        != #[trigger] self.ids@[b]@ by {
                        let a0 = if a < i { a } else { a + 1 };
                        let b0 = if b < i { b } else { b + 1 };
                        assert(self.ids@[a] == before[a0]);
                        assert(self.ids@[b] == before[b0]);
                    }
                }
                approval_reply(true, decision)
            },
        }
    }
}

/// Answering a pending prompt settles it: the same id answered again is refused with
/// `no pending exec approval for id`, and a prompt registered again can be answered again.
pub proof fn law_answer_settles_prompt(pending: Set<Seq<char>>, id: Seq<char>)
    ensures
        !pending.remove(id).contains(id),
        pending.remove(id).insert(id).contains(id),
{
}

/// The UI's answer passes through when it is one of the three allow decisions (`allow`,
/// `allow-once`, `allow-always`); every other answer, blank or unknown, becomes `deny`.
/// So the decision sent back always allows exactly when the UI allowed.
pub proof fn law_allow_decisions_pass_through(decision: Seq<char>)
    ensures
        (decision == "allow"@ || decision == "allow-once"@ || decision == "allow-always"@)
            ==> normalized_decision(decision) == decision,
        !(decision == "allow"@ || decision == "allow-once"@ || decision == "allow-always"@)
            ==> normalized_decision(decision) == "deny"@,
{
}

} // verus!
