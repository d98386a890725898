//! Pairing requests from the gateway: which pending requests to announce (each once),
//! and the notification text.
use vstd::prelude::*;
use crate::device_auth::views;
use crate::json::{first_present_of_three, first_present_text, JsonField};
use crate::text::str_eq;

verus! {

/// The request ids already announced, each once.
pub struct PairingTracker {
    pub seen: Vec<String>,
}

/// A pending pairing request as listed by `device.pair.list` or `node.pair.list`.
#[derive(Debug, Clone)]
pub struct PairingRequestInfo {
    pub request_id: JsonField,
    pub display_name: JsonField,
    pub device_id: JsonField,
    pub node_id: JsonField,
}

/// The request id of a pending request: its `requestId` string, else empty.
pub open spec fn request_id_of(r: PairingRequestInfo) -> Seq<char> {
    match r.request_id {
        JsonField::Text(s) => s@,
        _ => Seq::empty(),
    }
}

/// A request is announced when it has an id that was not announced before.
pub open spec fn is_new_request(seen: Set<Seq<char>>, id: Seq<char>) -> bool {
    id.len() > 0 && !seen.contains(id)
}

/// The name shown for a request: the first of `displayName`, `deviceId`, `nodeId` that
/// is present, when it is a string; else `unknown`.
pub open spec fn pairing_name_of(r: PairingRequestInfo) -> Seq<char> {
    match first_present_text(seq![r.display_name, r.device_id, r.node_id]) {
        Some(n) => n,
        None => "unknown"@,
    }
}

/// The notification body for a request of `kind` named `name`.
pub open spec fn pairing_body_of(kind: Seq<char>, name: Seq<char>) -> Seq<char> {
    kind + " \""@ + name + "\" — open Settings to approve"@
}

/// Scanning `reqs` in order from the announced ids `seen`: the ids announced afterwards,
/// and the positions of the requests announced now.
pub open spec fn pairing_scan(seen: Set<Seq<char>>, reqs: Seq<PairingRequestInfo>) -> (
    Set<Seq<char>>,
    Seq<int>,
)
    decreases reqs.len(),
{
    if reqs.len() == 0 {
        (seen, Seq::empty())
    } else {
        let (s, idx) = pairing_scan(seen, reqs.drop_last());
        let id = request_id_of(reqs.last());
        if is_new_request(s, id) {
            (s.insert(id), idx.push(reqs.len() - 1))
        } else {
            (s, idx)
        }
    }
}

impl PairingTracker {
    /// No id is held twice.
    pub open spec fn well_formed(&self) -> bool {
        forall|i: int, j: int|
            0 <= i < j < self.seen@.len() ==> #[trigger] self.seen@[i]@ != #[trigger] self.seen@[j]@
    }

    /// The announced ids.
    pub open spec fn seen_set(&self) -> Set<Seq<char>> {
        views(self.seen@).to_set()
    }

    /// Nothing announced yet.
    pub fn new() -> (r: Self)
        ensures
            r.well_formed(),
            r.seen_set() == Set::<Seq<char>>::empty(),
    {
        let r = PairingTracker { seen: Vec::new() };
        assert(views(r.seen@) =~= Seq::<Seq<char>>::empty());
        assert(r.seen_set() =~= Set::<Seq<char>>::empty());
        r
    }

    /// Whether `id` was announced.
    fn contains(&self, id: &str) -> (r: bool)
        ensures
            r == self.seen_set().contains(id@),
    {
        let mut i: usize = 0;
        while i < self.seen.len()
            invariant
                i <= self.seen@.len(),
                forall|k: int| 0 <= k < i ==> self.seen@[k]@ != id@,
            decreases self.seen.len() - i,
        {
            if str_eq(self.seen[i].as_str(), id) {
                assert(views(self.seen@)[i as int] == id@);
                return true;
            }
            i = i + 1;
        }
        proof {
            if views(self.seen@).to_set().contains(id@) {
                let k = choose|k: int| 0 <= k < views(self.seen@).len() && views(self.seen@)[k] == id@;
                assert(self.seen@[k]@ == id@);
            }
        }
        false
    }

    /// Records `id` as announced: true when it is not empty and was not announced
    /// before, and then it counts as announced.
    pub fn mark_announced(&mut self, id: &str) -> (r: bool)
        requires
            old(self).well_formed(),
        ensures
            final(self).well_formed(),
            r == is_new_request(old(self).seen_set(), id@),
            final(self).seen_set() == (if r {
                old(self).seen_set().insert(id@)
            } else {
                old(self).seen_set()
            }),
    {
        if id.is_empty() {
            return false;
        }
        if self.contains(id) {
            return false;
        }
        let ghost before = self.seen@;
        self.seen.push(String::from_str(id));
        proof {
            assert(views(self.seen@) =~= views(before).push(id@));
            assert(views(self.seen@).to_set() =~= views(before).to_set().insert(id@)) by {
                vstd::seq_lib::lemma_seq_contains_after_push(views(before), id@, id@);
                assert forall|x: Seq<char>|
                    views(self.seen@).to_set().contains(x) <==> views(before).to_set().insert(
                        id@,
                    ).contains(x) by {
                    if views(self.seen@).contains(x) {
                        let k = choose|k: int| 0 <= k < views(self.seen@).len() && views(self.seen@)[k] == x;
                        if k < before.len() {
                            assert(views(before)[k] == x);
                        }
                    }
                    if views(before).contains(x) {
                        let k = choose|k: int| 0 <= k < views(before).len() && views(before)[k] == x;
                        assert(views(self.seen@)[k] == x);
                    }
                    if x == id@ {
                        assert(views(self.seen@)[before.len() as int] == x);
                    }
                }
            }
            assert forall|i: int, j: int|
                0 <= i < j < self.seen@.len() implies #[trigger] self.seen@[i]@
                != #[trigger] self.seen@[j]@ by {
                if j == before.len() {
                    assert(views(before)[i] == before[i]@);
                    assert(views(before).contains(before[i]@));
                }
            }
        }
        true
    }
}

/// The request id of a pending request (see `request_id_of`).
pub fn request_id(r: &PairingRequestInfo) -> (s: String)
    ensures
        s@ == request_id_of(*r),
{
    match &r.request_id {
        JsonField::Text(s) => s.clone(),
        _ => String::new(),
    }
}

/// The name shown for a request (see `pairing_name_of`).
pub fn pairing_display_name(r: &PairingRequestInfo) -> (s: String)
    ensures
        s@ == pairing_name_of(*r),
{
    match first_present_of_three(&r.display_name, &r.device_id, &r.node_id) {
        Some(n) => n,
        None => String::from_str("unknown"),
    }
}

/// The notification body for a request (see `pairing_body_of`).
pub fn pairing_notification_body(kind: &str, name: &str) -> (s: String)
    ensures
        s@ == pairing_body_of(kind@, name@),
{
    let mut s = String::from_str(kind);
    s.append(" \"");
    s.append(name);
    s.append("\" — open Settings to approve");
    s
}

/// The pending requests of `kind` to announce now, each with its notification body, in
/// list order: those whose id was never announced (the tracker then holds them).
pub fn pending_notifications(
    tracker: &mut PairingTracker,
    kind: &str,
    pending: &Vec<PairingRequestInfo>,
) -> (r: Vec<(usize, String)>)
    requires
        old(tracker).well_formed(),
    ensures
        final(tracker).well_formed(),
        final(tracker).seen_set() == pairing_scan(old(tracker).seen_set(), pending@).0,
        r@.len() == pairing_scan(old(tracker).seen_set(), pending@).1.len(),
        forall|k: int|
            0 <= k < r@.len() ==> (#[trigger] r@[k]).0 == pairing_scan(
                old(tracker).seen_set(),
                pending@,
            ).1[k] && r@[k].1@ == pairing_body_of(kind@, pairing_name_of(pending@[r@[k].0 as int])),
{
    let ghost seen0 = tracker.seen_set();
    let mut out: Vec<(usize, String)> = Vec::new();
    let mut i: usize = 0;
    while i < pending.len()
        invariant
            i <= pending.len(),
            tracker.well_formed(),
            tracker.seen_set() == pairing_scan(seen0, pending@.take(i as int)).0,
            out@.len() == pairing_scan(seen0, pending@.take(i as int)).1.len(),
            forall|k: int|
                0 <= k < out@.len() ==> (#[trigger] out@[k]).0 == pairing_scan(
                    seen0,
                    pending@.take(i as int),
                ).1[k] && out@[k].0 < i && out@[k].1@ == pairing_body_of(
                    kind@,
                    pairing_name_of(pending@[out@[k].0 as int]),
                ),
        decreases pending.len() - i,
    {
        proof {
            assert(pending@.take(i + 1).drop_last() =~= pending@.take(i as int));
            assert(pending@.take(i + 1).last() == pending@[i as int]);
        }
        let id = request_id(&pending[i]);
        if tracker.mark_announced(id.as_str()) {
            let name = pairing_display_name(&pending[i]);
            let body = pairing_notification_body(kind, name.as_str());
            out.push((i, body));
        }
        i = i + 1;
    }
    proof {
        assert(pending@.take(i as int) =~= pending@);
    }
    out
}

/// An announced request is never announced again: once announced, its id is refused.
pub proof fn law_announced_once(seen: Set<Seq<char>>, id: Seq<char>)
    ensures
        is_new_request(seen, id) ==> !is_new_request(seen.insert(id), id),
{
}

proof fn lemma_scan_covers(seen: Set<Seq<char>>, reqs: Seq<PairingRequestInfo>)
    ensures
        seen.subset_of(pairing_scan(seen, reqs).0),
        forall|i: int|
            0 <= i < reqs.len() && request_id_of(#[trigger] reqs[i]).len() > 0 ==> pairing_scan(
                seen,
                reqs,
            ).0.contains(request_id_of(reqs[i])),
    decreases reqs.len(),
{
    if reqs.len() > 0 {
        let prefix = reqs.drop_last();
        lemma_scan_covers(seen, prefix);
        let s = pairing_scan(seen, prefix).0;
        assert forall|i: int|
            0 <= i < reqs.len() && request_id_of(#[trigger] reqs[i]).len() > 0 implies pairing_scan(
                seen,
                reqs,
            ).0.contains(request_id_of(reqs[i])) by {
            if i < reqs.len() - 1 {
                assert(prefix[i] == reqs[i]);
            }
        }
    }
}

proof fn lemma_rescan_quiet(seen: Set<Seq<char>>, reqs: Seq<PairingRequestInfo>)
    requires
        forall|i: int|
            0 <= i < reqs.len() && request_id_of(#[trigger] reqs[i]).len() > 0 ==> seen.contains(
                request_id_of(reqs[i]),
            ),
    ensures
        pairing_scan(seen, reqs).0 == seen,
        pairing_scan(seen, reqs).1.len() == 0,
    decreases reqs.len(),
{
    if reqs.len() > 0 {
        let prefix = reqs.drop_last();
        assert forall|i: int|
            0 <= i < prefix.len() && request_id_of(#[trigger] prefix[i]).len() > 0 implies seen.contains(
                request_id_of(prefix[i]),
            ) by {
            assert(prefix[i] == reqs[i]);
        }
        lemma_rescan_quiet(seen, prefix);
        assert(reqs.last() == reqs[reqs.len() - 1]);
    }
}

/// Polling the same pending list again announces nothing: every request with an id was
/// announced by the first poll.
pub proof fn law_repeated_poll_is_quiet(seen: Set<Seq<char>>, reqs: Seq<PairingRequestInfo>)
    ensures
        pairing_scan(pairing_scan(seen, reqs).0, reqs).1.len() == 0,
        pairing_scan(pairing_scan(seen, reqs).0, reqs).0 == pairing_scan(seen, reqs).0,
{
    lemma_scan_covers(seen, reqs);
    lemma_rescan_quiet(pairing_scan(seen, reqs).0, reqs);
}

/// Request `i` is the first with its id: the id is not empty, was not announced before
/// (`seen`), and no earlier request carries it.
pub open spec fn first_new_at(seen: Set<Seq<char>>, reqs: Seq<PairingRequestInfo>, i: int) -> bool {
    request_id_of(reqs[i]).len() > 0 && !seen.contains(request_id_of(reqs[i])) && forall|j: int|
        0 <= j < i ==> request_id_of(#[trigger] reqs[j]) != request_id_of(reqs[i])
}

/// The non-empty ids among `reqs`.
pub open spec fn request_ids(reqs: Seq<PairingRequestInfo>) -> Set<Seq<char>> {
    Set::new(
        |x: Seq<char>|
            x.len() > 0 && exists|j: int| 0 <= j < reqs.len() && request_id_of(#[trigger] reqs[j]) == x,
    )
}

proof fn lemma_scan_exact(seen: Set<Seq<char>>, reqs: Seq<PairingRequestInfo>)
    ensures
        pairing_scan(seen, reqs).0 == seen.union(request_ids(reqs)),
        forall|k: int|
            0 <= k < pairing_scan(seen, reqs).1.len() ==> 0 <= #[trigger] pairing_scan(seen, reqs).1[k]
                < reqs.len(),
        forall|i: int|
            0 <= i < reqs.len() ==> (pairing_scan(seen, reqs).1.contains(i) <==> #[trigger] first_new_at(
                seen,
                reqs,
                i,
            )),
    decreases reqs.len(),
{
    if reqs.len() == 0 {
        assert(request_ids(reqs) =~= Set::<Seq<char>>::empty());
        assert(seen.union(request_ids(reqs)) =~= seen);
    } else {
        let p = reqs.drop_last();
        lemma_scan_exact(seen, p);
        let (st, idx) = pairing_scan(seen, p);
        let n = reqs.len() - 1;
        let id = request_id_of(reqs.last());
        assert(reqs.last() == reqs[n]);
        assert forall|j: int| 0 <= j < n implies #[trigger] reqs[j] == p[j] by {}
        // The ids after the step.
        assert(pairing_scan(seen, reqs).0 =~= seen.union(request_ids(reqs))) by {
            assert forall|x: Seq<char>| #[trigger] seen.union(request_ids(reqs)).contains(x) <==> pairing_scan(
                seen,
                reqs,
            ).0.contains(x) by {
                if request_ids(reqs).contains(x) {
                    let j = choose|j: int| 0 <= j < reqs.len() && request_id_of(#[trigger] reqs[j]) == x;
                    if j < n {
                        assert(request_ids(p).contains(x));
                    }
                }
                if request_ids(p).contains(x) {
                    let j = choose|j: int| 0 <= j < p.len() && request_id_of(#[trigger] p[j]) == x;
                    assert(reqs[j] == p[j]);
                    assert(request_ids(reqs).contains(x));
                }
                if x == id && id.len() > 0 {
                    assert(request_ids(reqs).contains(x));
                }
            }
        }
        let step_idx = pairing_scan(seen, reqs).1;
        assert forall|i: int| 0 <= i < reqs.len() implies (step_idx.contains(i) <==> #[trigger] first_new_at(
            seen,
            reqs,
            i,
        )) by {
            if i < n {
                assert(first_new_at(seen, reqs, i) == first_new_at(seen, p, i)) by {
                    assert(reqs[i] == p[i]);
                    assert forall|j: int| 0 <= j < i implies #[trigger] reqs[j] == p[j] by {}
                }
                if step_idx.contains(i) && !idx.contains(i) {
                    let k = choose|k: int| 0 <= k < step_idx.len() && step_idx[k] == i;
                    assert(k == idx.len());
                }
                if idx.contains(i) {
                    let k = choose|k: int| 0 <= k < idx.len() && idx[k] == i;
                    assert(step_idx[k] == i);
                }
            } else {
                if is_new_request(st, id) {
                    assert(step_idx[idx.len() as int] == n);
                    assert forall|j: int| 0 <= j < n implies request_id_of(#[trigger] reqs[j]) != id by {
                        assert(reqs[j] == p[j]);
                        if request_id_of(p[j]) == id {
                            assert(request_ids(p).contains(id));
                        }
                    }
                } else {
                    if step_idx.contains(i) {
                        let k = choose|k: int| 0 <= k < step_idx.len() && step_idx[k] == i;
                        assert(idx[k] < p.len());
                    }
                    if id.len() > 0 && !seen.contains(id) {
                        assert(request_ids(p).contains(id));
                        let j = choose|j: int| 0 <= j < p.len() && request_id_of(#[trigger] p[j]) == id;
                        assert(reqs[j] == p[j]);
                        assert(!first_new_at(seen, reqs, i));
                    }
                }
            }
        }
    }
}

/// Over one scan, request `i` is announced exactly when it is the first with its id and
/// that id was not announced before; so every distinct non-empty id is announced once,
/// at its first occurrence, and requests without an id are never announced.
pub proof fn law_announced_at_first_occurrence(seen: Set<Seq<char>>, reqs: Seq<PairingRequestInfo>)
    ensures
        forall|i: int|
            0 <= i < reqs.len() ==> (pairing_scan(seen, reqs).1.contains(i) <==> #[trigger] first_new_at(
                seen,
                reqs,
                i,
            )),
        pairing_scan(seen, reqs).0 == seen.union(request_ids(reqs)),
{
    lemma_scan_exact(seen, reqs);
}

/// Polling `a` and then `b` announces what one poll of `a` followed by `b` announces:
/// the announced ids are the same, and the second poll's positions are those of the
/// combined list, shifted by `a`'s length. With `law_announced_at_first_occurrence`, a
/// run of polls announces each distinct non-empty id exactly once, at its first
/// occurrence over the whole run.
pub proof fn law_polls_compose(seen: Set<Seq<char>>, a: Seq<PairingRequestInfo>, b: Seq<PairingRequestInfo>)
    ensures
        pairing_scan(seen, a + b).0 == pairing_scan(pairing_scan(seen, a).0, b).0,
        pairing_scan(seen, a + b).1 == pairing_scan(seen, a).1 + pairing_scan(
            pairing_scan(seen, a).0,
            b,
        ).1.map_values(|k: int| k + a.len()),
    decreases b.len(),
{
    let s1 = pairing_scan(seen, a).0;
    if b.len() == 0 {
        assert(a + b =~= a);
        assert(pairing_scan(s1, b).1.map_values(|k: int| k + a.len()) =~= Seq::<int>::empty());
        assert(pairing_scan(seen, a).1 + Seq::<int>::empty() =~= pairing_scan(seen, a).1);
    } else {
        let bp = b.drop_last();
        law_polls_compose(seen, a, bp);
        assert((a + b).drop_last() =~= a + bp);
        assert((a + b).last() == b.last());
        let inner = pairing_scan(s1, bp).1;
        let f = |k: int| k + a.len();
        let id = request_id_of(b.last());
        if is_new_request(pairing_scan(s1, bp).0, id) {
            assert(inner.push(b.len() - 1).map_values(f) =~= inner.map_values(f).push(b.len() - 1 + a.len()));
            assert((pairing_scan(seen, a).1 + inner.map_values(f)).push((a + b).len() - 1) =~= pairing_scan(
                seen,
                a,
            ).1 + inner.push(b.len() - 1).map_values(f));
        }
    }
}

/// A run of polls, each scanning from the ids the polls before it announced: the ids
/// announced afterwards, and the positions announced, counted over all the polls' requests
/// in turn.
pub open spec fn scan_run(seen: Set<Seq<char>>, polls: Seq<Seq<PairingRequestInfo>>) -> (
    Set<Seq<char>>,
    Seq<int>,
)
    decreases polls.len(),
{
    if polls.len() == 0 {
        (seen, Seq::empty())
    } else {
        let prev = scan_run(seen, polls.drop_last());
        let step = pairing_scan(prev.0, polls.last());
        (
            step.0,
            prev.1 + step.1.map_values(|k: int| k + polls.drop_last().flatten_alt().len()),
        )
    }
}

proof fn lemma_run_is_one_scan(seen: Set<Seq<char>>, polls: Seq<Seq<PairingRequestInfo>>)
    ensures
        scan_run(seen, polls) == pairing_scan(seen, polls.flatten_alt()),
    decreases polls.len(),
{
    if polls.len() > 0 {
        let p = polls.drop_last();
        lemma_run_is_one_scan(seen, p);
        law_polls_compose(seen, p.flatten_alt(), polls.last());
    }
}

/// Over a whole run of polls (the tracker kept from one poll to the next), request `i` of
/// all the polls' requests taken in turn is announced exactly when it is the first with
/// its id and that id was not announced before the run: each distinct non-empty id is
/// announced once, at its first occurrence, and repeats and requests without an id never.
pub proof fn law_run_announces_each_id_once(seen: Set<Seq<char>>, polls: Seq<Seq<PairingRequestInfo>>)
    ensures
        scan_run(seen, polls) == pairing_scan(seen, polls.flatten()),
        forall|i: int|
            0 <= i < polls.flatten().len() ==> (scan_run(seen, polls).1.contains(i)
                <==> #[trigger] first_new_at(seen, polls.flatten(), i)),
        scan_run(seen, polls).0 == seen.union(request_ids(polls.flatten())),
{
    lemma_run_is_one_scan(seen, polls);
    polls.lemma_flatten_and_flatten_alt_are_equivalent();
    law_announced_at_first_occurrence(seen, polls.flatten());
}

} // verus!
