//! Whether a gateway host is reachable directly on the local network (no SSH tunnel).
use vstd::prelude::*;
use crate::text::{chars_of, ends_with, str_eq, string_from_chars, sub_vec, trim, trim_char_end, trim_char_start, trim_string};

verus! {

/// An IP address as its parts: the four octets of IPv4, the eight segments of IPv6.
#[derive(Debug, Clone, Copy)]
pub enum IpParts {
    V4([u8; 4]),
    V6([u16; 8]),
}

/// An address on this machine or the local network: IPv4 loopback (127/8), private
/// (10/8, 172.16/12, 192.168/16) or link-local (169.254/16); IPv6 loopback (`::1`),
/// unique local (fc00::/7) or link-local (fe80::/10).
pub open spec fn ip_is_lan(ip: IpParts) -> bool {
    match ip {
        IpParts::V4(a) => {
            let o = a@;
            o[0] == 127 || o[0] == 10 || (o[0] == 172 && 16 <= o[1] && o[1] <= 31) || (o[0] == 192
                && o[1] == 168) || (o[0] == 169 && o[1] == 254)
        },
        IpParts::V6(s) => {
            let g = s@;
            (g[0] == 0 && g[1] == 0 && g[2] == 0 && g[3] == 0 && g[4] == 0 && g[5] == 0 && g[6]
                == 0 && g[7] == 1) || (g[0] & 0xfe00u16) == 0xfc00u16 || (g[0] & 0xffc0u16)
                == 0xfe80u16
        },
    }
}

/// `c` with an ASCII capital lowered (`char::to_ascii_lowercase`).
pub open spec fn ascii_lower(c: char) -> char {
    if 'A' <= c && c <= 'Z' {
        ((c as int) + 32) as char
    } else {
        c
    }
}

/// `a` and `b` are equal ignoring ASCII case (`str::eq_ignore_ascii_case`).
pub open spec fn eq_ignore_ascii_case(a: Seq<char>, b: Seq<char>) -> bool {
    a.len() == b.len() && forall|i: int| 0 <= i < a.len() ==> ascii_lower(#[trigger] a[i])
        == ascii_lower(b[i])
}

/// The host without surrounding whitespace and IPv6 brackets.
pub open spec fn bare_host(host: Seq<char>) -> Seq<char> {
    trim_char_end(trim_char_start(trim(host), '['), ']')
}

/// Reachable without an SSH tunnel: `localhost`, loopback literals, mDNS `.local` names
/// and loopback, private and link-local addresses. `parsed` is the bare host read as an
/// IP address (`str::parse::<IpAddr>`), `None` when it is not one.
pub open spec fn direct_lan(host: Seq<char>, parsed: Option<IpParts>) -> bool {
    let h = bare_host(host);
    eq_ignore_ascii_case(h, "localhost"@) || h == "127.0.0.1"@ || h == "::1"@ || ends_with(
        h,
        ".local"@,
    ) || match parsed {
        Some(ip) => ip_is_lan(ip),
        None => false,
    }
}

/// Whether an address is on this machine or the local network (see `ip_is_lan`).
pub fn ip_is_local_network(ip: IpParts) -> (r: bool)
    ensures
        r == ip_is_lan(ip),
{
    match ip {
        IpParts::V4(a) => a[0] == 127 || a[0] == 10 || (a[0] == 172 && 16 <= a[1] && a[1] <= 31)
            || (a[0] == 192 && a[1] == 168) || (a[0] == 169 && a[1] == 254),
        IpParts::V6(s) => (s[0] == 0 && s[1] == 0 && s[2] == 0 && s[3] == 0 && s[4] == 0 && s[5]
            == 0 && s[6] == 0 && s[7] == 1) || (s[0] & 0xfe00u16) == 0xfc00u16 || (s[0]
            & 0xffc0u16) == 0xfe80u16,
    }
}

/// Whether `a` equals `b` ignoring ASCII case.
fn text_eq_ignore_ascii_case(a: &Vec<char>, b: &str) -> (r: bool)
    ensures
        r == eq_ignore_ascii_case(a@, b@),
{
    let bv = chars_of(b);
    if a.len() != bv.len() {
        return false;
    }
    let mut i: usize = 0;
    while i < a.len()
        invariant
            i <= a.len() == bv.len(),
            bv@ == b@,
            forall|k: int| 0 <= k < i ==> ascii_lower(#[trigger] a@[k]) == ascii_lower(bv@[k]),
        decreases a.len() - i,
    {
        let x = a[i];
        let y = bv[i];
        let lx = if 'A' <= x && x <= 'Z' {
            ((x as u32) + 32) as u8 as char
        } else {
            x
        };
        let ly = if 'A' <= y && y <= 'Z' {
            ((y as u32) + 32) as u8 as char
        } else {
            y
        };
        if lx != ly {
            return false;
        }
        i = i + 1;
    }
    true
}

/// The host without surrounding whitespace and brackets (see `bare_host`).
fn bare_host_chars(host: &str) -> (r: Vec<char>)
    ensures
        r@ == bare_host(host@),
{
    let t = trim_string(host);
    let v = chars_of(t.as_str());
    let mut a: usize = 0;
    assert(v@.subrange(0, v@.len() as int) =~= v@);
    while a < v.len() && v[a] == '['
        invariant
            a <= v.len(),
            v@ == trim(host@),
            trim_char_start(v@, '[') == trim_char_start(v@.subrange(a as int, v@.len() as int), '['),
        decreases v.len() - a,
    {
        assert(v@.subrange(a as int, v@.len() as int).drop_first() =~= v@.subrange(
            a + 1,
            v@.len() as int,
        ));
        a = a + 1;
    }
    let mut b: usize = v.len();
    assert(v@.subrange(a as int, b as int) == trim_char_start(v@, '['));
    while b > a && v[b - 1] == ']'
        invariant
            a <= b <= v.len(),
            trim_char_end(trim_char_start(v@, '['), ']') == trim_char_end(
                v@.subrange(a as int, b as int),
                ']',
            ),
        decreases b,
    {
        assert(v@.subrange(a as int, b as int).drop_last() =~= v@.subrange(a as int, b - 1));
        b = b - 1;
    }
    sub_vec(&v, a, b)
}

/// The host as it is classified: without surrounding whitespace and brackets (see
/// `bare_host`); this is the text to read as an IP address.
pub fn bare_host_text(host: &str) -> (r: String)
    ensures
        r@ == bare_host(host@),
{
    let v = bare_host_chars(host);
    string_from_chars(&v)
}

/// Whether the gateway at `host` is reached directly on the local network, without an
/// SSH tunnel (see `direct_lan`); `parsed` is `bare_host_text(host)` read as an IP
/// address.
pub fn is_direct_lan_host(host: &str, parsed: Option<IpParts>) -> (r: bool)
    ensures
        r == direct_lan(host@, parsed),
{
    let h = bare_host_chars(host);
    if text_eq_ignore_ascii_case(&h, "localhost") {
        return true;
    }
    let hs = string_from_chars(&h);
    if str_eq(hs.as_str(), "127.0.0.1") || str_eq(hs.as_str(), "::1") {
        return true;
    }
    let suffix = chars_of(".local");
    if h.len() >= suffix.len() {
        let start = h.len() - suffix.len();
        let mut i: usize = 0;
        let mut same = true;
        while i < suffix.len()
            invariant
                i <= suffix.len(),
                start + suffix.len() == h.len(),
                suffix@ == ".local"@,
                same <==> forall|k: int| 0 <= k < i ==> h@[start + k] == suffix@[k],
            decreases suffix.len() - i,
        {
            if h[start + i] != suffix[i] {
                same = false;
            }
            i = i + 1;
        }
        proof {
            if same {
                assert(h@.subrange(start as int, h@.len() as int) =~= suffix@);
            } else {
                if ends_with(h@, ".local"@) {
                    let k = choose|k: int| 0 <= k < suffix.len() && h@[start + k] != suffix@[k];
                    assert(h@.subrange(start as int, h@.len() as int)[k] == h@[start + k]);
                }
            }
        }
        if same {
            return true;
        }
    }
    match parsed {
        Some(ip) => ip_is_local_network(ip),
        None => false,
    }
}

} // verus!
