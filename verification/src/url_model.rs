//! The parts of a parsed URL that the library reads, and the calls into the `url` and
//! `form_urlencoded` crates that produce them.
use vstd::prelude::*;

verus! {

/// A URL parsed by the `url` crate, held as the plain values the library reads.
#[derive(Debug, Clone)]
pub struct UrlParts {
    /// The full serialization (`Url::as_str`).
    pub serialization: String,
    pub scheme: String,
    pub host: Option<String>,
    /// The explicit port, absent when it is the scheme's default (`Url::port`).
    pub port: Option<u16>,
    pub path: String,
    /// The decoded `application/x-www-form-urlencoded` query pairs, in order.
    pub query_pairs: Vec<(String, String)>,
    pub fragment: Option<String>,
}

/// What a `UrlParts` holds, as text.
pub ghost struct UrlView {
    pub serialization: Seq<char>,
    pub scheme: Seq<char>,
    pub host: Option<Seq<char>>,
    pub port: Option<u16>,
    pub path: Seq<char>,
    pub query_pairs: Seq<(Seq<char>, Seq<char>)>,
    pub fragment: Option<Seq<char>>,
}

impl View for UrlParts {
    type V = UrlView;

    open spec fn view(&self) -> UrlView {
        UrlView {
            serialization: self.serialization@,
            scheme: self.scheme@,
            host: match self.host {
                Some(h) => Some(h@),
                None => None,
            },
            port: self.port,
            path: self.path@,
            query_pairs: Seq::new(
                self.query_pairs@.len(),
                |i: int| (self.query_pairs@[i].0@, self.query_pairs@[i].1@),
            ),
            fragment: match self.fragment {
                Some(f) => Some(f@),
                None => None,
            },
        }
    }
}

/// What `Url::parse` makes of `raw`: the URL, or the text of the parse error.
pub uninterp spec fn url_parse_result(raw: Seq<char>) -> Result<UrlView, Seq<char>>;

/// The URL that `Url::set_path(path)` makes of the URL that `Url::parse` gives for
/// `serialization`.
pub uninterp spec fn url_with_path_result(serialization: Seq<char>, path: Seq<char>) -> UrlView;

/// The URL that `Url::set_query(Some(query))` makes of the URL that `Url::parse` gives for
/// `serialization`.
pub uninterp spec fn url_with_query_result(serialization: Seq<char>, query: Seq<char>) -> UrlView;

/// The URL that `Url::set_fragment(Some(fragment))` makes of the URL that `Url::parse`
/// gives for `serialization`.
pub uninterp spec fn url_with_fragment_result(
    serialization: Seq<char>,
    fragment: Seq<char>,
) -> UrlView;

/// The view of a parse outcome.
pub open spec fn parse_outcome(r: Result<UrlParts, String>) -> Result<UrlView, Seq<char>> {
    match r {
        Ok(u) => Ok(u@),
        Err(e) => Err(e@),
    }
}

/// `u`'s serialization parsed again and given the path `path`; the parse error when the
/// serialization does not parse.
pub open spec fn set_path_of(u: UrlView, path: Seq<char>) -> Result<UrlView, Seq<char>> {
    match url_parse_result(u.serialization) {
        Ok(_) => Ok(url_with_path_result(u.serialization, path)),
        Err(e) => Err(e),
    }
}

/// `u`'s serialization parsed again and given the query `query` (see `set_path_of`).
pub open spec fn set_query_of(u: UrlView, query: Seq<char>) -> Result<UrlView, Seq<char>> {
    match url_parse_result(u.serialization) {
        Ok(_) => Ok(url_with_query_result(u.serialization, query)),
        Err(e) => Err(e),
    }
}

/// `u`'s serialization parsed again and given the fragment `fragment` (see `set_path_of`).
pub open spec fn set_fragment_of(u: UrlView, fragment: Seq<char>) -> Result<UrlView, Seq<char>> {
    match url_parse_result(u.serialization) {
        Ok(_) => Ok(url_with_fragment_result(u.serialization, fragment)),
        Err(e) => Err(e),
    }
}

/// `url::Url::parse`, read into `UrlParts`, with the parse error as its display text.
#[verifier::external_body]
pub(crate) fn parse_url(raw: &str) -> (r: Result<UrlParts, String>)
    ensures
        parse_outcome(r) == url_parse_result(raw@),
{
    match url::Url::parse(raw) {
        Ok(u) => Ok(UrlParts {
            serialization: u.as_str().to_string(),
            scheme: u.scheme().to_string(),
            host: u.host_str().map(str::to_string),
            port: u.port(),
            path: u.path().to_string(),
            query_pairs: u.query_pairs().map(|(k, v)| (k.into_owned(), v.into_owned())).collect(),
            fragment: u.fragment().map(str::to_string),
        }),
        Err(e) => Err(e.to_string()),
    }
}

/// `Url::parse` of `url`'s serialization, then `Url::set_path(path)`, read back into
/// `UrlParts`; the parse error's display text when the serialization does not parse.
#[verifier::external_body]
pub(crate) fn url_set_path(url: &UrlParts, path: &str) -> (r: Result<UrlParts, String>)
    ensures
        match url_parse_result(url@.serialization) {
            Ok(_) => r matches Ok(v) && v@ == url_with_path_result(url@.serialization, path@),
            Err(e) => r matches Err(m) && m@ == e,
        },
{
    let mut u = url::Url::parse(&url.serialization).map_err(|e| e.to_string())?;
    u.set_path(path);
    Ok(UrlParts {
        serialization: u.as_str().to_string(),
        scheme: u.scheme().to_string(),
        host: u.host_str().map(str::to_string),
        port: u.port(),
        path: u.path().to_string(),
        query_pairs: u.query_pairs().map(|(k, v)| (k.into_owned(), v.into_owned())).collect(),
        fragment: u.fragment().map(str::to_string),
    })
}

/// `Url::parse` of `url`'s serialization, then `Url::set_query(Some(query))`, read back
/// into `UrlParts`; the parse error's display text when the serialization does not parse.
#[verifier::external_body]
pub(crate) fn url_set_query(url: &UrlParts, query: &str) -> (r: Result<UrlParts, String>)
    ensures
        match url_parse_result(url@.serialization) {
            Ok(_) => r matches Ok(v) && v@ == url_with_query_result(url@.serialization, query@),
            Err(e) => r matches Err(m) && m@ == e,
        },
{
    let mut u = url::Url::parse(&url.serialization).map_err(|e| e.to_string())?;
    u.set_query(Some(query));
    Ok(UrlParts {
        serialization: u.as_str().to_string(),
        scheme: u.scheme().to_string(),
        host: u.host_str().map(str::to_string),
        port: u.port(),
        path: u.path().to_string(),
        query_pairs: u.query_pairs().map(|(k, v)| (k.into_owned(), v.into_owned())).collect(),
        fragment: u.fragment().map(str::to_string),
    })
}

/// `Url::parse` of `url`'s serialization, then `Url::set_fragment(Some(fragment))`, read
/// back into `UrlParts`; the parse error's display text when the serialization does not
/// parse.
#[verifier::external_body]
pub(crate) fn url_set_fragment(url: &UrlParts, fragment: &str) -> (r: Result<UrlParts, String>)
    ensures
        match url_parse_result(url@.serialization) {
            Ok(_) => r matches Ok(v) && v@ == url_with_fragment_result(url@.serialization, fragment@),
            Err(e) => r matches Err(m) && m@ == e,
        },
{
    let mut u = url::Url::parse(&url.serialization).map_err(|e| e.to_string())?;
    u.set_fragment(Some(fragment));
    Ok(UrlParts {
        serialization: u.as_str().to_string(),
        scheme: u.scheme().to_string(),
        host: u.host_str().map(str::to_string),
        port: u.port(),
        path: u.path().to_string(),
        query_pairs: u.query_pairs().map(|(k, v)| (k.into_owned(), v.into_owned())).collect(),
        fragment: u.fragment().map(str::to_string),
    })
}

/// Bytes that `application/x-www-form-urlencoded` serialization keeps as they are.
pub open spec fn form_unreserved(b: u8) -> bool {
    b == 0x2a || b == 0x2d || b == 0x2e || (0x30 <= b && b <= 0x39) || (0x41 <= b && b <= 0x5a)
        || b == 0x5f || (0x61 <= b && b <= 0x7a)
}

/// An uppercase hex digit for `x < 16`.
pub open spec fn upper_hex_digit(x: int) -> char {
    if x < 10 {
        (48 + x) as char
    } else {
        (65 + x - 10) as char
    }
}

/// `application/x-www-form-urlencoded` byte serialization: unreserved bytes as
/// themselves, space as `+`, every other byte as `%XX` (uppercase hex).
pub open spec fn form_urlencoded(d: Seq<u8>) -> Seq<char>
    decreases d.len(),
{
    if d.len() == 0 {
        Seq::empty()
    } else {
        form_urlencoded(d.drop_last()) + (if form_unreserved(d.last()) {
            seq![d.last() as char]
        } else if d.last() == 0x20 {
            seq!['+']
        } else {
            seq![
                '%',
                upper_hex_digit((d.last() as int) / 16),
                upper_hex_digit((d.last() as int) % 16),
            ]
        })
    }
}

/// `form_urlencoded::byte_serialize` of the UTF-8 bytes of `s`, concatenated.
#[verifier::external_body]
pub(crate) fn form_urlencode(s: &str) -> (r: String)
    ensures
        r@ == form_urlencoded(vstd::utf8::encode_utf8(s@)),
{
    url::form_urlencoded::byte_serialize(s.as_bytes()).collect()
}

} // verus!
