//! LAN gateway discovery results: display names and de-duplication.
use vstd::prelude::*;
use crate::cli_install::split_char;
use crate::text::{chars_of, str_eq, string_from_chars};

verus! {

/// A gateway found by mDNS browsing.
#[derive(Debug, Clone)]
pub struct DiscoveredGateway {
    pub name: String,
    pub host: String,
    pub port: u16,
}

/// A discovered gateway as `(name, host, port)`.
pub type GatewayView = (Seq<char>, Seq<char>, u16);

/// The views of a list of discovered gateways.
pub open spec fn gateways_view(v: Seq<DiscoveredGateway>) -> Seq<GatewayView> {
    Seq::new(v.len(), |i: int| (v[i].name@, v[i].host@, v[i].port))
}

/// Two gateways are the same endpoint when host and port agree.
pub open spec fn same_endpoint(a: GatewayView, b: GatewayView) -> bool {
    a.1 == b.1 && a.2 == b.2
}

/// `g` shares its endpoint with one of the first `n` entries of `s`.
pub open spec fn endpoint_seen(s: Seq<GatewayView>, n: int, g: GatewayView) -> bool {
    exists|j: int| 0 <= j < n && same_endpoint(#[trigger] s[j], g)
}

/// The entries of `s` that are the first with their endpoint, in order.
pub open spec fn dedupe_spec(s: Seq<GatewayView>) -> Seq<GatewayView>
    decreases s.len(),
{
    if s.len() == 0 {
        Seq::empty()
    } else {
        let r = dedupe_spec(s.drop_last());
        if endpoint_seen(s, s.len() - 1, s.last()) {
            r
        } else {
            r.push(s.last())
        }
    }
}

/// The short label of an mDNS full service name: its first dot-separated label, or the
/// whole name when that label is empty.
pub open spec fn display_name(fullname: Seq<char>) -> Seq<char> {
    let first = split_char(fullname, '.')[0];
    if first.len() > 0 {
        first
    } else {
        fullname
    }
}

/// The first piece of `split_char` ends at the first separator.
pub proof fn lemma_split_first_pub(s: Seq<char>, c: char, i: int)
    requires
        0 <= i <= s.len(),
        forall|k: int| 0 <= k < i ==> s[k] != c,
        i == s.len() || s[i] == c,
    ensures
        split_char(s, c)[0] == s.take(i),
{
    lemma_split_first(s, c, i);
}

/// A separator in `s` makes at least two pieces.
pub proof fn lemma_split_has_two_pub(s: Seq<char>, c: char, i: int)
    requires
        0 <= i < s.len(),
        s[i] == c,
    ensures
        split_char(s, c).len() >= 2,
{
    lemma_split_single_has_no_sep(s, c, i);
}

proof fn lemma_split_first(s: Seq<char>, c: char, i: int)
    requires
        0 <= i <= s.len(),
        forall|k: int| 0 <= k < i ==> s[k] != c,
        i == s.len() || s[i] == c,
    ensures
        split_char(s, c)[0] == s.take(i),
    decreases s.len(),
{
    if s.len() == 0 {
        assert(s.take(i) =~= Seq::<char>::empty());
    } else if i == s.len() {
        crate::encoding::lemma_split_no_sep(s, c);
        assert(s.take(i) =~= s);
    } else {
        lemma_split_first_prefix(s, c, i, s.len() as int);
        assert(s.take(s.len() as int) =~= s);
    }
}

proof fn lemma_split_first_prefix(s: Seq<char>, c: char, i: int, n: int)
    requires
        0 <= i < n <= s.len(),
        forall|k: int| 0 <= k < i ==> s[k] != c,
        s[i] == c,
    ensures
        split_char(s.take(n), c)[0] == s.take(i),
    decreases n,
{
    let t = s.take(n);
    assert(t.drop_last() =~= s.take(n - 1));
    crate::cli_install::lemma_split_len_pub(t.drop_last(), c);
    if n == i + 1 {
        assert(s.take(n - 1) =~= s.take(i));
        crate::encoding::lemma_split_no_sep(s.take(i), c);
        assert(t.last() == c);
    } else {
        lemma_split_first_prefix(s, c, i, n - 1);
        let r = split_char(t.drop_last(), c);
        if t.last() == c {
            assert(r.push(Seq::empty())[0] == r[0]);
        } else {
            crate::cli_install::lemma_split_len_pub(t.drop_last(), c);
            if r.len() == 1 {
                // the first piece of `s.take(n - 1)` would then hold `s[i] == c`
                crate::encoding::lemma_split_no_sep(s.take(i), c);
                assert(false) by {
                    lemma_split_single_has_no_sep(t.drop_last(), c, i);
                }
            }
            assert(r.update(r.len() - 1, r.last().push(t.last()))[0] == r[0]);
        }
    }
}

proof fn lemma_split_single_has_no_sep(s: Seq<char>, c: char, i: int)
    requires
        0 <= i < s.len(),
        s[i] == c,
    ensures
        split_char(s, c).len() >= 2,
    decreases s.len(),
{
    crate::cli_install::lemma_split_len_pub(s.drop_last(), c);
    if i < s.len() - 1 {
        lemma_split_single_has_no_sep(s.drop_last(), c, i);
    }
}

/// Short label from an mDNS full service name (strips `._openclaw-gw._tcp.local.`).
pub fn gateway_display_name(fullname: &str) -> (r: String)
    ensures
        r@ == display_name(fullname@),
{
    let v = chars_of(fullname);
    let mut i: usize = 0;
    while i < v.len() && v[i] != '.'
        invariant
            i <= v.len(),
            v@ == fullname@,
            forall|k: int| 0 <= k < i ==> v@[k] != '.',
        decreases v.len() - i,
    {
        i = i + 1;
    }
    proof {
        lemma_split_first(v@, '.', i as int);
    }
    if i == 0 {
        return String::from_str(fullname);
    }
    let out = crate::text::sub_vec(&v, 0, i);
    proof {
        assert(out@ =~= v@.take(i as int));
    }
    string_from_chars(&out)
}

fn same_endpoint_exec(a: &DiscoveredGateway, b: &DiscoveredGateway) -> (r: bool)
    ensures
        r == (a.host@ == b.host@ && a.port == b.port),
{
    a.port == b.port && str_eq(a.host.as_str(), b.host.as_str())
}

/// Keeps the first gateway per host and port (mDNS can report one several times).
pub fn dedupe_gateways(found: Vec<DiscoveredGateway>) -> (r: Vec<DiscoveredGateway>)
    ensures
        gateways_view(r@) == dedupe_spec(gateways_view(found@)),
{
    let ghost s = gateways_view(found@);
    let mut out: Vec<DiscoveredGateway> = Vec::new();
    let mut i: usize = 0;
    proof {
        assert(s.take(0) =~= Seq::<GatewayView>::empty());
        assert(gateways_view(out@) =~= Seq::<GatewayView>::empty());
    }
    while i < found.len()
        invariant
            i <= found.len(),
            s == gateways_view(found@),
            gateways_view(out@) == dedupe_spec(s.take(i as int)),
        decreases found.len() - i,
    {
        let mut seen = false;
        let mut j: usize = 0;
        while j < i
            invariant
                j <= i < found.len(),
                s == gateways_view(found@),
                seen == endpoint_seen(s, j as int, s[i as int]),
            decreases i - j,
        {
            if same_endpoint_exec(&found[j], &found[i]) {
                assert(same_endpoint(s[j as int], s[i as int]));
                seen = true;
            }
            proof {
                if !seen {
                    assert(!endpoint_seen(s, j + 1, s[i as int])) by {
                        if endpoint_seen(s, j + 1, s[i as int]) {
                            let w = choose|w: int| 0 <= w < j + 1 && same_endpoint(s[w], s[i as int]);
                            if w < j {
                                assert(endpoint_seen(s, j as int, s[i as int]));
                            }
                        }
                    }
                } else {
                    if !endpoint_seen(s, j as int, s[i as int]) {
                        assert(same_endpoint(s[j as int], s[i as int]));
                    }
                }
            }
            j = j + 1;
        }
        let ghost t = s.take(i + 1);
        proof {
            assert(t.drop_last() =~= s.take(i as int));
            assert(t.last() == s[i as int]);
            assert(endpoint_seen(t, i as int, t.last()) == endpoint_seen(s, i as int, s[i as int]))
                by {
                if endpoint_seen(t, i as int, t.last()) {
                    let w = choose|w: int| 0 <= w < i && same_endpoint(t[w], t.last());
                    assert(t[w] == s[w]);
                }
                if endpoint_seen(s, i as int, s[i as int]) {
                    let w = choose|w: int| 0 <= w < i && same_endpoint(s[w], s[i as int]);
                    assert(t[w] == s[w]);
                }
            }
        }
        if !seen {
            let g = found[i].clone_gateway();
            out.push(g);
            proof {
                assert(gateways_view(out@) =~= dedupe_spec(s.take(i as int)).push(s[i as int]));
            }
        }
        i = i + 1;
    }
    proof {
        assert(s.take(found.len() as int) =~= s);
    }
    out
}

impl DiscoveredGateway {
    /// A copy of this entry.
    pub fn clone_gateway(&self) -> (r: DiscoveredGateway)
        ensures
            r.name@ == self.name@,
            r.host@ == self.host@,
            r.port == self.port,
    {
        DiscoveredGateway { name: self.name.clone(), host: self.host.clone(), port: self.port }
    }
}

/// De-duplication keeps, in order, exactly the first entry for each endpoint: no two
/// results share an endpoint, every result is an input entry, and every input endpoint
/// is represented.
pub proof fn law_dedupe(s: Seq<GatewayView>)
    ensures
        forall|a: int, b: int|
            0 <= a < b < dedupe_spec(s).len() ==> !same_endpoint(
                #[trigger] dedupe_spec(s)[a],
                #[trigger] dedupe_spec(s)[b],
            ),
        forall|a: int| 0 <= a < dedupe_spec(s).len() ==> s.contains(#[trigger] dedupe_spec(s)[a]),
        forall|k: int|
            0 <= k < s.len() ==> exists|a: int|
                0 <= a < dedupe_spec(s).len() && same_endpoint(
                    #[trigger] dedupe_spec(s)[a],
                    #[trigger] s[k],
                ),
    decreases s.len(),
{
    if s.len() > 0 {
        let p = s.drop_last();
        law_dedupe(p);
        let r = dedupe_spec(p);
        let d = dedupe_spec(s);
        assert forall|a: int| 0 <= a < d.len() implies s.contains(#[trigger] d[a]) by {
            if a < r.len() {
                assert(d[a] == r[a]);
                assert(p.contains(r[a]));
                let w = choose|w: int| 0 <= w < p.len() && p[w] == r[a];
                assert(s[w] == p[w]);
            } else {
                assert(s[s.len() - 1] == s.last());
            }
        }
        assert forall|k: int| 0 <= k < s.len() implies exists|a: int|
            0 <= a < d.len() && same_endpoint(#[trigger] d[a], #[trigger] s[k]) by {
            if k < p.len() {
                assert(s[k] == p[k]);
                let a = choose|a: int| 0 <= a < r.len() && same_endpoint(r[a], p[k]);
                assert(d[a] == r[a]);
            } else if endpoint_seen(s, s.len() - 1, s.last()) {
                let w = choose|w: int| 0 <= w < s.len() - 1 && same_endpoint(s[w], s.last());
                assert(s[w] == p[w]);
                let a = choose|a: int| 0 <= a < r.len() && same_endpoint(r[a], p[w]);
                assert(d[a] == r[a]);
                assert(same_endpoint(d[a], s[k]));
            } else {
                assert(d[r.len() as int] == s.last());
            }
        }
        assert forall|a: int, b: int| 0 <= a < b < d.len() implies !same_endpoint(
            #[trigger] d[a],
            #[trigger] d[b],
        ) by {
            if b < r.len() {
                assert(d[a] == r[a] && d[b] == r[b]);
            } else {
                assert(!endpoint_seen(s, s.len() - 1, s.last()));
                assert(d[b] == s.last());
                assert(d[a] == r[a]);
                assert(p.contains(r[a]));
                let w = choose|w: int| 0 <= w < p.len() && p[w] == r[a];
                assert(s[w] == p[w]);
                if same_endpoint(d[a], d[b]) {
                    assert(same_endpoint(s[w], s.last()));
                    assert(endpoint_seen(s, s.len() - 1, s.last()));
                }
            }
        }
    }
}

/// The mDNS service type gateways announce.
pub const GATEWAY_SERVICE_TYPE: &'static str = "_openclaw-gw._tcp.local.";

/// A gateway from a resolved mDNS service: the short name, its first address (else its
/// host name) and its port.
pub fn gateway_from_resolved(fullname: &str, address: Option<String>, hostname: &str, port: u16) -> (r:
    DiscoveredGateway)
    ensures
        r.name@ == display_name(fullname@),
        r.host@ == match address {
            Some(a) => a@,
            None => hostname@,
        },
        r.port == port,
{
    let host = match address {
        Some(a) => a,
        None => String::from_str(hostname),
    };
    DiscoveredGateway { name: gateway_display_name(fullname), host, port }
}

proof fn lemma_dedupe_distinct_is_identity(t: Seq<GatewayView>)
    requires
        forall|a: int, b: int|
            0 <= a < b < t.len() ==> !same_endpoint(#[trigger] t[a], #[trigger] t[b]),
    ensures
        dedupe_spec(t) == t,
    decreases t.len(),
{
    if t.len() > 0 {
        let p = t.drop_last();
        assert forall|a: int, b: int| 0 <= a < b < p.len() implies !same_endpoint(
            #[trigger] p[a],
            #[trigger] p[b],
        ) by {
            assert(p[a] == t[a] && p[b] == t[b]);
        }
        lemma_dedupe_distinct_is_identity(p);
        if endpoint_seen(t, t.len() - 1, t.last()) {
            let w = choose|w: int| 0 <= w < t.len() - 1 && same_endpoint(t[w], t.last());
            assert(t.last() == t[t.len() - 1]);
            assert(!same_endpoint(t[w], t[t.len() - 1]));
        }
        assert(p.push(t.last()) =~= t);
    }
}

/// De-duplicating twice gives the same list as de-duplicating once.
pub proof fn law_dedupe_idempotent(s: Seq<GatewayView>)
    ensures
        dedupe_spec(dedupe_spec(s)) == dedupe_spec(s),
{
    law_dedupe(s);
    lemma_dedupe_distinct_is_identity(dedupe_spec(s));
}

/// The positions in `s` of the entries `dedupe_spec` keeps, in order.
pub open spec fn dedupe_positions(s: Seq<GatewayView>) -> Seq<int>
    decreases s.len(),
{
    if s.len() == 0 {
        Seq::empty()
    } else {
        let r = dedupe_positions(s.drop_last());
        if endpoint_seen(s, s.len() - 1, s.last()) {
            r
        } else {
            r.push(s.len() - 1)
        }
    }
}

/// De-duplication keeps the earliest entry for each endpoint and the input order: the
/// kept entries sit at strictly increasing positions of the input, and no entry before a
/// kept one shares its endpoint.
pub proof fn law_dedupe_keeps_earliest_in_order(s: Seq<GatewayView>)
    ensures
        dedupe_positions(s).len() == dedupe_spec(s).len(),
        forall|a: int|
            0 <= a < dedupe_spec(s).len() ==> 0 <= #[trigger] dedupe_positions(s)[a] < s.len()
                && dedupe_spec(s)[a] == s[dedupe_positions(s)[a]] && !endpoint_seen(
                s,
                dedupe_positions(s)[a],
                s[dedupe_positions(s)[a]],
            ),
        forall|a: int, b: int|
            0 <= a < b < dedupe_positions(s).len() ==> #[trigger] dedupe_positions(s)[a]
                < #[trigger] dedupe_positions(s)[b],
    decreases s.len(),
{
    if s.len() > 0 {
        let p = s.drop_last();
        law_dedupe_keeps_earliest_in_order(p);
        let rp = dedupe_positions(p);
        let rd = dedupe_spec(p);
        assert forall|a: int| 0 <= a < rd.len() implies !endpoint_seen(s, rp[a], s[rp[a]]) by {
            assert(s[rp[a]] == p[rp[a]]);
            if endpoint_seen(s, rp[a], s[rp[a]]) {
                let w = choose|w: int| 0 <= w < rp[a] && same_endpoint(#[trigger] s[w], s[rp[a]]);
                assert(s[w] == p[w]);
                assert(endpoint_seen(p, rp[a], p[rp[a]]));
            }
        }
        assert forall|a: int| 0 <= a < rd.len() implies rd[a] == s[rp[a]] by {
            assert(s[rp[a]] == p[rp[a]]);
        }
        assert(s.last() == s[s.len() - 1]);
    }
}

} // verus!
