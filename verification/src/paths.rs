//! Paths under the user's OpenClaw state directory (`~/.openclaw`).
use vstd::prelude::*;
use crate::text::{chars_of, push_str, string_from_chars};

verus! {

/// `base` joined with the relative path `seg`, as `Path::join` writes it on Unix:
/// a `/` goes between them unless `base` is empty or already ends with one.
pub open spec fn path_join(base: Seq<char>, seg: Seq<char>) -> Seq<char> {
    if base.len() == 0 || base.last() == '/' {
        base + seg
    } else {
        base + "/"@ + seg
    }
}

/// The base directory used when the home directory is unknown.
pub open spec fn home_or_dot(home: Option<Seq<char>>) -> Seq<char> {
    match home {
        Some(h) => h,
        None => "."@,
    }
}

/// `~/.openclaw`, given the home directory (`.` when it is unknown).
pub open spec fn state_dir_of(home: Option<Seq<char>>) -> Seq<char> {
    path_join(home_or_dot(home), ".openclaw"@)
}

/// The user's home directory as `dirs::home_dir` finds it (the `HOME` variable, else the
/// password database), as text. Nothing is stated of the answer: it depends on the environment.
#[verifier::external_body]
pub(crate) fn home_dir() -> (r: Option<String>) {
    dirs::home_dir().map(|p| p.to_string_lossy().into_owned())
}

/// Whether something exists at `path` (`Path::exists`); nothing is stated of the answer,
/// which depends on the filesystem.
#[verifier::external_body]
pub(crate) fn path_exists(path: &str) -> (r: bool) {
    std::path::Path::new(path).exists()
}

/// Joins the relative path `seg` onto `base` (see `path_join`).
pub fn join_path(base: &str, seg: &str) -> (r: String)
    ensures
        r@ == path_join(base@, seg@),
{
    let mut out = chars_of(base);
    let n = out.len();
    if n > 0 && out[n - 1] != '/' {
        out.push('/');
    }
    push_str(&mut out, seg);
    proof {
        if base@.len() == 0 || base@.last() == '/' {
            assert(out@ =~= path_join(base@, seg@));
        } else {
            reveal_strlit("/");
            assert(out@ =~= path_join(base@, seg@));
        }
    }
    string_from_chars(&out)
}

/// `~/.openclaw` for the given home directory.
pub fn state_dir_for(home: Option<&str>) -> (r: String)
    ensures
        r@ == state_dir_of(crate::text::opt_view(home)),
{
    match home {
        Some(h) => join_path(h, ".openclaw"),
        None => join_path(".", ".openclaw"),
    }
}

/// `~/.openclaw` for the current user.
pub fn state_dir() -> (r: String)
    ensures
        exists|h: Option<Seq<char>>| r@ == state_dir_of(h),
{
    let home = home_dir();
    let r = match &home {
        Some(h) => state_dir_for(Some(h.as_str())),
        None => state_dir_for(None),
    };
    r
}

/// The file `rel` (a relative path) under `~/.openclaw` for the given home directory.
pub fn state_file_for(home: Option<&str>, rel: &str) -> (r: String)
    ensures
        r@ == path_join(state_dir_of(crate::text::opt_view(home)), rel@),
{
    let dir = state_dir_for(home);
    join_path(dir.as_str(), rel)
}

/// The file `rel` under `~/.openclaw` for the current user.
pub fn state_file(rel: &str) -> (r: String)
    ensures
        exists|h: Option<Seq<char>>| r@ == path_join(state_dir_of(h), rel@),
{
    let home = home_dir();
    match &home {
        Some(h) => state_file_for(Some(h.as_str()), rel),
        None => state_file_for(None, rel),
    }
}

/// The first index at or after `i` where `s` holds `true`.
pub open spec fn first_true_from(s: Seq<bool>, i: int) -> Option<int>
    decreases s.len() - i,
{
    if i < 0 || i >= s.len() {
        None
    } else if s[i] {
        Some(i)
    } else {
        first_true_from(s, i + 1)
    }
}

proof fn lemma_first_true_from_in_range(s: Seq<bool>, i: int)
    ensures
        first_true_from(s, i) matches Some(j) ==> i <= j < s.len() && s[j],
    decreases s.len() - i,
{
    if 0 <= i < s.len() && !s[i] {
        lemma_first_true_from_in_range(s, i + 1);
    }
}

/// The first index where `s` holds `true` is an index of `s`.
pub proof fn lemma_first_true_in_range(s: Seq<bool>)
    ensures
        first_true(s) matches Some(j) ==> 0 <= j < s.len() && s[j],
{
    lemma_first_true_from_in_range(s, 0);
}

/// The first index where `s` holds `true`.
pub open spec fn first_true(s: Seq<bool>) -> Option<int> {
    first_true_from(s, 0)
}

/// The first candidate whose check was accepted.
pub open spec fn pick_first(candidates: Seq<Seq<char>>, accepted: Seq<bool>) -> Option<Seq<char>> {
    match first_true(accepted) {
        Some(i) => Some(candidates[i]),
        None => None,
    }
}

/// A lookup among `candidates`: the first one some run of the checks accepted.
pub open spec fn is_first_accepted(candidates: Seq<Seq<char>>, r: Option<Seq<char>>) -> bool {
    exists|acc: Seq<bool>| acc.len() == candidates.len() && #[trigger] pick_first(candidates, acc) == r
}

/// The view of an optional owned string.
pub open spec fn opt_string(r: Option<String>) -> Option<Seq<char>> {
    match r {
        Some(v) => Some(v@),
        None => None,
    }
}

/// The first candidate whose check was accepted (`accepted[i]` is the answer for
/// `candidates[i]`), or `None` when none was.
pub fn first_accepted(candidates: &Vec<String>, accepted: &Vec<bool>) -> (r: Option<String>)
    requires
        candidates.len() == accepted.len(),
    ensures
        match first_true(accepted@) {
            Some(i) => r matches Some(p) && p@ == candidates@[i]@,
            None => r is None,
        },
{
    let mut i: usize = 0;
    while i < accepted.len()
        invariant
            i <= accepted.len(),
            candidates.len() == accepted.len(),
            first_true(accepted@) == first_true_from(accepted@, i as int),
        decreases accepted.len() - i,
    {
        if accepted[i] {
            return Some(candidates[i].clone());
        }
        i = i + 1;
    }
    None
}

/// Whether each candidate exists on disk, in order.
pub fn existing_flags(candidates: &Vec<String>) -> (r: Vec<bool>)
    ensures
        r.len() == candidates.len(),
{
    let mut r: Vec<bool> = Vec::new();
    let mut i: usize = 0;
    while i < candidates.len()
        invariant
            i <= candidates.len(),
            r.len() == i,
        decreases candidates.len() - i,
    {
        r.push(path_exists(candidates[i].as_str()));
        i = i + 1;
    }
    r
}

/// The first candidate that exists on disk (see `is_first_accepted`).
pub fn first_existing(candidates: Vec<String>) -> (r: Option<String>)
    ensures
        is_first_accepted(crate::device_auth::views(candidates@), opt_string(r)),
{
    let flags = existing_flags(&candidates);
    let r = first_accepted(&candidates, &flags);
    proof {
        let cs = crate::device_auth::views(candidates@);
        lemma_first_true_from_in_range(flags@, 0);
        assert(pick_first(cs, flags@) == opt_string(r));
    }
    r
}

} // verus!
