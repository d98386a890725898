//! Canvas webview snapshot helpers (PNG data URL to base64 payload).
use vstd::prelude::*;
use crate::text::{
    chars_of, has_prefix_in, strip_prefix, string_from_chars, sub_vec, trim, trim_bounds, trim_char,
    trim_char_bounds,
};

verus! {

/// The data URL prefix of a base64 PNG.
pub open spec fn png_prefix() -> Seq<char> {
    "data:image/png;base64,"@
}

/// The data URL prefix of a base64 PNG that names its charset.
pub open spec fn png_charset_prefix() -> Seq<char> {
    "data:image/png;charset=utf-8;base64,"@
}

/// The payload of a PNG data URL: trim whitespace, then surrounding double quotes,
/// strip one of the two PNG prefixes; an empty payload counts as none.
pub open spec fn png_payload(raw: Seq<char>) -> Option<Seq<char>> {
    let t = trim_char(trim(raw), '"');
    let payload = match strip_prefix(t, png_prefix()) {
        Some(p) => Some(p),
        None => strip_prefix(t, png_charset_prefix()),
    };
    match payload {
        Some(p) => if p.len() == 0 {
            None
        } else {
            Some(p)
        },
        None => None,
    }
}

/// Extract the base64 PNG payload from a webview `canvas.toDataURL` or A2UI snapshot string.
pub fn png_base64_from_data_url(raw: &str) -> (r: Option<String>)
    ensures
        match r {
            Some(s) => png_payload(raw@) == Some(s@),
            None => png_payload(raw@).is_none(),
        },
{
    let v = chars_of(raw);
    let (a, b) = trim_bounds(&v);
    let (c, d) = trim_char_bounds(&v, a, b, '"');
    let ghost t = v@.subrange(c as int, d as int);
    proof {
        assert(v@.subrange(a as int, b as int) == trim(raw@));
        assert(t == trim_char(trim(raw@), '"'));
    }
    let p1 = chars_of("data:image/png;base64,");
    let p2 = chars_of("data:image/png;charset=utf-8;base64,");
    let start = if has_prefix_in(&v, c, d, &p1) {
        c + p1.len()
    } else if has_prefix_in(&v, c, d, &p2) {
        c + p2.len()
    } else {
        return None;
    };
    proof {
        assert(v@.subrange(start as int, d as int) =~= t.subrange(
            (start - c) as int,
            t.len() as int,
        ));
    }
    if start == d {
        return None;
    }
    let out = sub_vec(&v, start, d);
    Some(string_from_chars(&out))
}

} // verus!
