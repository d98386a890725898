//! `openclaw://` deep links.
use vstd::prelude::*;
use crate::text::{chars_of, str_eq};
use crate::url_model::{parse_url, url_parse_result, UrlParts, UrlView};

verus! {

/// A parsed `openclaw://` deep link.
#[derive(Debug, Clone, PartialEq, Eq)]
pub enum DeepLink {
    Agent {
        message: String,
        session: Option<String>,
        thinking: Option<String>,
        deliver: Option<bool>,
    },
    Dashboard,
    WebChat { session: Option<String> },
    Settings,
    Canvas { session: Option<String> },
    Gateway { host: Option<String>, port: Option<u16> },
}

/// What a `DeepLink` holds, as text.
pub ghost enum DeepLinkView {
    Agent {
        message: Seq<char>,
        session: Option<Seq<char>>,
        thinking: Option<Seq<char>>,
        deliver: Option<bool>,
    },
    Dashboard,
    WebChat { session: Option<Seq<char>> },
    Settings,
    Canvas { session: Option<Seq<char>> },
    Gateway { host: Option<Seq<char>>, port: Option<u16> },
}

/// The view of an optional owned string.
pub open spec fn ov(s: Option<String>) -> Option<Seq<char>> {
    match s {
        Some(v) => Some(v@),
        None => None,
    }
}

impl View for DeepLink {
    type V = DeepLinkView;

    open spec fn view(&self) -> DeepLinkView {
        match self {
            DeepLink::Agent { message, session, thinking, deliver } => DeepLinkView::Agent {
                message: message@,
                session: ov(*session),
                thinking: ov(*thinking),
                deliver: *deliver,
            },
            DeepLink::Dashboard => DeepLinkView::Dashboard,
            DeepLink::WebChat { session } => DeepLinkView::WebChat { session: ov(*session) },
            DeepLink::Settings => DeepLinkView::Settings,
            DeepLink::Canvas { session } => DeepLinkView::Canvas { session: ov(*session) },
            DeepLink::Gateway { host, port } => DeepLinkView::Gateway { host: ov(*host), port: *port },
        }
    }
}

/// The value of the first query pair whose key is `key`.
pub open spec fn first_value(pairs: Seq<(Seq<char>, Seq<char>)>, key: Seq<char>) -> Option<
    Seq<char>,
>
    decreases pairs.len(),
{
    if pairs.len() == 0 {
        None
    } else if pairs[0].0 == key {
        Some(pairs[0].1)
    } else {
        first_value(pairs.drop_first(), key)
    }
}

/// The value of the first query pair whose key is `k1` or `k2`.
pub open spec fn first_value_of_either(
    pairs: Seq<(Seq<char>, Seq<char>)>,
    k1: Seq<char>,
    k2: Seq<char>,
) -> Option<Seq<char>>
    decreases pairs.len(),
{
    if pairs.len() == 0 {
        None
    } else if pairs[0].0 == k1 || pairs[0].0 == k2 {
        Some(pairs[0].1)
    } else {
        first_value_of_either(pairs.drop_first(), k1, k2)
    }
}

/// What `str::parse::<bool>` accepts.
pub open spec fn parse_bool(s: Seq<char>) -> Option<bool> {
    if s == "true"@ {
        Some(true)
    } else if s == "false"@ {
        Some(false)
    } else {
        None
    }
}

/// `s` consists of ASCII digits only.
pub open spec fn all_digits(s: Seq<char>) -> bool {
    forall|i: int| 0 <= i < s.len() ==> '0' <= #[trigger] s[i] && s[i] <= '9'
}

/// The number that the decimal digits `s` write.
pub open spec fn digits_value(s: Seq<char>) -> int
    decreases s.len(),
{
    if s.len() == 0 {
        0
    } else {
        digits_value(s.drop_last()) * 10 + (s.last() as int - 48)
    }
}

/// What `str::parse::<u16>` accepts: an optional `+`, then one or more decimal digits whose
/// value is at most 65535.
pub open spec fn parse_u16(s: Seq<char>) -> Option<u16> {
    let d = if s.len() > 0 && s[0] == '+' {
        s.drop_first()
    } else {
        s
    };
    if d.len() > 0 && all_digits(d) && digits_value(d) <= 65535 {
        Some(digits_value(d) as u16)
    } else {
        None
    }
}

/// The optional value of a parse of an optional value.
pub open spec fn and_then_bool(v: Option<Seq<char>>) -> Option<bool> {
    match v {
        Some(s) => parse_bool(s),
        None => None,
    }
}

/// The optional value of a parse of an optional value.
pub open spec fn and_then_u16(v: Option<Seq<char>>) -> Option<u16> {
    match v {
        Some(s) => parse_u16(s),
        None => None,
    }
}

/// The deep link a parsed URL denotes: the scheme must be `openclaw`; the host picks the
/// link and the query pairs fill in its fields.
pub open spec fn deep_link_from(u: UrlView) -> Option<DeepLinkView> {
    let q = u.query_pairs;
    if u.scheme != "openclaw"@ {
        None
    } else {
        match u.host {
            None => None,
            Some(h) => if h == "agent"@ {
                match first_value(q, "message"@) {
                    Some(message) => Some(
                        DeepLinkView::Agent {
                            message,
                            session: first_value(q, "session"@),
                            thinking: first_value(q, "thinking"@),
                            deliver: and_then_bool(first_value(q, "deliver"@)),
                        },
                    ),
                    None => None,
                }
            } else if h == "dashboard"@ {
                Some(DeepLinkView::Dashboard)
            } else if h == "webchat"@ || h == "chat"@ {
                Some(
                    DeepLinkView::WebChat {
                        session: first_value_of_either(q, "session"@, "sessionKey"@),
                    },
                )
            } else if h == "settings"@ {
                Some(DeepLinkView::Settings)
            } else if h == "canvas"@ {
                Some(
                    DeepLinkView::Canvas {
                        session: first_value_of_either(q, "session"@, "sessionKey"@),
                    },
                )
            } else if h == "gateway"@ {
                Some(
                    DeepLinkView::Gateway {
                        host: first_value(q, "host"@),
                        port: and_then_u16(first_value(q, "port"@)),
                    },
                )
            } else {
                None
            },
        }
    }
}

/// The deep link that the text `raw` denotes, if any.
pub open spec fn deep_link_of(raw: Seq<char>) -> Option<DeepLinkView> {
    match url_parse_result(raw) {
        Ok(u) => deep_link_from(u),
        Err(_) => None,
    }
}

/// The view of an optional deep link.
pub open spec fn opt_link(l: Option<DeepLink>) -> Option<DeepLinkView> {
    match l {
        Some(d) => Some(d@),
        None => None,
    }
}

/// `str::parse::<bool>`.
pub fn parse_bool_text(s: &str) -> (r: Option<bool>)
    ensures
        r == parse_bool(s@),
{
    if str_eq(s, "true") {
        Some(true)
    } else if str_eq(s, "false") {
        Some(false)
    } else {
        None
    }
}

proof fn lemma_digits_value_nonneg(s: Seq<char>)
    requires
        all_digits(s),
    ensures
        digits_value(s) >= 0,
    decreases s.len(),
{
    if s.len() > 0 {
        assert(all_digits(s.drop_last())) by {
            assert forall|i: int| 0 <= i < s.drop_last().len() implies '0' <= #[trigger] s.drop_last()[i]
                && s.drop_last()[i] <= '9' by {
                assert(s.drop_last()[i] == s[i]);
            }
        }
        lemma_digits_value_nonneg(s.drop_last());
        assert('0' <= s[s.len() - 1]);
    }
}

/// `str::parse::<u16>`.
pub fn parse_u16_text(s: &str) -> (r: Option<u16>)
    ensures
        r == parse_u16(s@),
{
    let v = chars_of(s);
    let start: usize = if v.len() > 0 && v[0] == '+' {
        1
    } else {
        0
    };
    let ghost d = if s@.len() > 0 && s@[0] == '+' {
        s@.drop_first()
    } else {
        s@
    };
    proof {
        assert(v@.subrange(start as int, v.len() as int) =~= d);
    }
    if start == v.len() {
        return None;
    }
    let mut val: u32 = 0;
    let mut over = false;
    let mut i: usize = start;
    proof {
        assert(v@.subrange(start as int, start as int) =~= Seq::<char>::empty());
    }
    while i < v.len()
        invariant
            start <= i <= v.len(),
            v@ == s@,
            d == v@.subrange(start as int, v.len() as int),
            d == (if s@.len() > 0 && s@[0] == '+' {
                s@.drop_first()
            } else {
                s@
            }),
            all_digits(v@.subrange(start as int, i as int)),
            !over ==> val as int == digits_value(v@.subrange(start as int, i as int)),
            !over ==> val <= 65535,
            over ==> digits_value(v@.subrange(start as int, i as int)) > 65535,
        decreases v.len() - i,
    {
        let c = v[i];
        let ghost pre = v@.subrange(start as int, i as int);
        let ghost next = v@.subrange(start as int, i + 1);
        proof {
            assert(next.drop_last() =~= pre);
            assert(next.last() == c);
        }
        if c < '0' || c > '9' {
            proof {
                assert(d[i - start] == c);
                assert(!all_digits(d));
            }
            return None;
        }
        proof {
            assert(all_digits(next)) by {
                assert forall|k: int| 0 <= k < next.len() implies '0' <= #[trigger] next[k]
                    && next[k] <= '9' by {
                    if k < pre.len() {
                        assert(next[k] == pre[k]);
                    }
                }
            }
            lemma_digits_value_nonneg(pre);
        }
        if !over {
            let digit = (c as u32) - 48;
            val = val * 10 + digit;
            if val > 65535 {
                over = true;
            }
        }
        i = i + 1;
    }
    if over {
        None
    } else {
        Some(val as u16)
    }
}

fn first_value_exec(pairs: &Vec<(String, String)>, key: &str) -> (r: Option<String>)
    ensures
        ov(r) == first_value(
            Seq::new(pairs@.len(), |i: int| (pairs@[i].0@, pairs@[i].1@)),
            key@,
        ),
{
    let ghost q = Seq::new(pairs@.len(), |i: int| (pairs@[i].0@, pairs@[i].1@));
    let mut i: usize = 0;
    assert(q.subrange(0, q.len() as int) =~= q);
    while i < pairs.len()
        invariant
            i <= pairs.len(),
            q == Seq::new(pairs@.len(), |j: int| (pairs@[j].0@, pairs@[j].1@)),
            first_value(q, key@) == first_value(q.subrange(i as int, q.len() as int), key@),
        decreases pairs.len() - i,
    {
        let ghost rest = q.subrange(i as int, q.len() as int);
        proof {
            assert(rest.drop_first() =~= q.subrange(i + 1, q.len() as int));
            assert(rest[0] == q[i as int]);
        }
        if str_eq(pairs[i].0.as_str(), key) {
            return Some(pairs[i].1.clone());
        }
        i = i + 1;
    }
    None
}

fn first_value_either_exec(pairs: &Vec<(String, String)>, k1: &str, k2: &str) -> (r: Option<
    String,
>)
    ensures
        ov(r) == first_value_of_either(
            Seq::new(pairs@.len(), |i: int| (pairs@[i].0@, pairs@[i].1@)),
            k1@,
            k2@,
        ),
{
    let ghost q = Seq::new(pairs@.len(), |i: int| (pairs@[i].0@, pairs@[i].1@));
    let mut i: usize = 0;
    assert(q.subrange(0, q.len() as int) =~= q);
    while i < pairs.len()
        invariant
            i <= pairs.len(),
            q == Seq::new(pairs@.len(), |j: int| (pairs@[j].0@, pairs@[j].1@)),
            first_value_of_either(q, k1@, k2@) == first_value_of_either(
                q.subrange(i as int, q.len() as int),
                k1@,
                k2@,
            ),
        decreases pairs.len() - i,
    {
        let ghost rest = q.subrange(i as int, q.len() as int);
        proof {
            assert(rest.drop_first() =~= q.subrange(i + 1, q.len() as int));
            assert(rest[0] == q[i as int]);
        }
        if str_eq(pairs[i].0.as_str(), k1) || str_eq(pairs[i].0.as_str(), k2) {
            return Some(pairs[i].1.clone());
        }
        i = i + 1;
    }
    None
}

/// The deep link that a parsed URL denotes (see `deep_link_from`).
pub fn deep_link_from_url(url: &UrlParts) -> (r: Option<DeepLink>)
    ensures
        opt_link(r) == deep_link_from(url@),
{
    if !str_eq(url.scheme.as_str(), "openclaw") {
        return None;
    }
    let host = match &url.host {
        Some(h) => h.as_str(),
        None => return None,
    };
    let q = &url.query_pairs;
    if str_eq(host, "agent") {
        let message = match first_value_exec(q, "message") {
            Some(m) => m,
            None => return None,
        };
        let session = first_value_exec(q, "session");
        let thinking = first_value_exec(q, "thinking");
        let deliver = match first_value_exec(q, "deliver") {
            Some(v) => parse_bool_text(v.as_str()),
            None => None,
        };
        Some(DeepLink::Agent { message, session, thinking, deliver })
    } else if str_eq(host, "dashboard") {
        Some(DeepLink::Dashboard)
    } else if str_eq(host, "webchat") || str_eq(host, "chat") {
        Some(DeepLink::WebChat { session: first_value_either_exec(q, "session", "sessionKey") })
    } else if str_eq(host, "settings") {
        Some(DeepLink::Settings)
    } else if str_eq(host, "canvas") {
        Some(DeepLink::Canvas { session: first_value_either_exec(q, "session", "sessionKey") })
    } else if str_eq(host, "gateway") {
        let host_value = first_value_exec(q, "host");
        let port = match first_value_exec(q, "port") {
            Some(v) => parse_u16_text(v.as_str()),
            None => None,
        };
        Some(DeepLink::Gateway { host: host_value, port })
    } else {
        None
    }
}

/// Parses an `openclaw://` deep link (see `deep_link_of`).
pub fn parse_deep_link(raw: &str) -> (r: Option<DeepLink>)
    ensures
        opt_link(r) == deep_link_of(raw@),
{
    match parse_url(raw) {
        Ok(u) => deep_link_from_url(&u),
        Err(_) => None,
    }
}

proof fn lemma_first_of_either_at(
    q: Seq<(Seq<char>, Seq<char>)>,
    k1: Seq<char>,
    k2: Seq<char>,
    i: int,
)
    requires
        0 <= i < q.len(),
        q[i].0 == k1 || q[i].0 == k2,
        forall|j: int| 0 <= j < i ==> (#[trigger] q[j]).0 != k1 && q[j].0 != k2,
    ensures
        first_value_of_either(q, k1, k2) == Some(q[i].1),
    decreases i,
{
    if i > 0 {
        assert(q[0].0 != k1 && q[0].0 != k2);
        let t = q.drop_first();
        assert forall|j: int| 0 <= j < i - 1 implies (#[trigger] t[j]).0 != k1 && t[j].0 != k2 by {
            assert(t[j] == q[j + 1]);
        }
        assert(t[i - 1] == q[i]);
        lemma_first_of_either_at(t, k1, k2, i - 1);
    }
}

proof fn lemma_first_of_either_none(q: Seq<(Seq<char>, Seq<char>)>, k1: Seq<char>, k2: Seq<char>)
    requires
        forall|j: int| 0 <= j < q.len() ==> (#[trigger] q[j]).0 != k1 && q[j].0 != k2,
    ensures
        first_value_of_either(q, k1, k2) is None,
    decreases q.len(),
{
    if q.len() > 0 {
        assert(q[0].0 != k1 && q[0].0 != k2);
        let t = q.drop_first();
        assert forall|j: int| 0 <= j < t.len() implies (#[trigger] t[j]).0 != k1 && t[j].0 != k2 by {
            assert(t[j] == q[j + 1]);
        }
        lemma_first_of_either_none(t, k1, k2);
    }
}

/// Canvas and WebChat links take their session from the first query pair named either
/// `session` or `sessionKey`: when pair `i` is the first with one of those names, the
/// link's session is that pair's value; when no pair has either name, there is none.
pub proof fn law_session_links_accept_both_names(u: UrlView, i: int)
    requires
        u.scheme == "openclaw"@,
    ensures
        ({
            let q = u.query_pairs;
            (0 <= i < q.len() && (q[i].0 == "session"@ || q[i].0 == "sessionKey"@) && (forall|j: int|
                0 <= j < i ==> (#[trigger] q[j]).0 != "session"@ && q[j].0 != "sessionKey"@)) ==> {
                &&& u.host == Some("canvas"@) ==> deep_link_from(u) == Some(
                    DeepLinkView::Canvas { session: Some(q[i].1) },
                )
                &&& (u.host == Some("webchat"@) || u.host == Some("chat"@)) ==> deep_link_from(u)
                    == Some(DeepLinkView::WebChat { session: Some(q[i].1) })
            }
        }),
        ({
            let q = u.query_pairs;
            (forall|j: int|
                0 <= j < q.len() ==> (#[trigger] q[j]).0 != "session"@ && q[j].0 != "sessionKey"@)
                ==> {
                &&& u.host == Some("canvas"@) ==> deep_link_from(u) == Some(
                    DeepLinkView::Canvas { session: None },
                )
                &&& (u.host == Some("webchat"@) || u.host == Some("chat"@)) ==> deep_link_from(u)
                    == Some(DeepLinkView::WebChat { session: None })
            }
        }),
{
    let q = u.query_pairs;
    reveal_strlit("agent");
    reveal_strlit("dashboard");
    reveal_strlit("webchat");
    reveal_strlit("chat");
    reveal_strlit("settings");
    reveal_strlit("canvas");
    assert("agent"@.len() == 5 && "dashboard"@.len() == 9 && "webchat"@.len() == 7);
    assert("chat"@.len() == 4 && "settings"@.len() == 8 && "canvas"@.len() == 6);
    if 0 <= i < q.len() && (q[i].0 == "session"@ || q[i].0 == "sessionKey"@) && (forall|j: int|
        0 <= j < i ==> (#[trigger] q[j]).0 != "session"@ && q[j].0 != "sessionKey"@) {
        lemma_first_of_either_at(q, "session"@, "sessionKey"@, i);
    }
    if forall|j: int|
        0 <= j < q.len() ==> (#[trigger] q[j]).0 != "session"@ && q[j].0 != "sessionKey"@ {
        lemma_first_of_either_none(q, "session"@, "sessionKey"@);
    }
}

} // verus!
