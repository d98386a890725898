//! JSON text as `serde_json` writes and reads it: string literals, and parsing into
//! `serde_json::Value`.
use vstd::prelude::*;
use crate::device_auth::views;

verus! {

/// A lowercase hex digit for `x < 16`.
pub open spec fn lower_hex_digit(x: int) -> char {
    if x < 10 {
        (48 + x) as char
    } else {
        (97 + x - 10) as char
    }
}

/// How `serde_json` writes one character inside a string literal: quote and backslash
/// escaped, the control characters with a short escape as that, the other control
/// characters as `\u00xx`, everything else as itself.
pub open spec fn json_escape_char(c: char) -> Seq<char> {
    if c == '"' {
        seq!['\\', '"']
    } else if c == '\\' {
        seq!['\\', '\\']
    } else if c == '\u{8}' {
        seq!['\\', 'b']
    } else if c == '\u{9}' {
        seq!['\\', 't']
    } else if c == '\u{a}' {
        seq!['\\', 'n']
    } else if c == '\u{c}' {
        seq!['\\', 'f']
    } else if c == '\u{d}' {
        seq!['\\', 'r']
    } else if (c as int) < 0x20 {
        seq!['\\', 'u', '0', '0', lower_hex_digit((c as int) / 16), lower_hex_digit((c as int) % 16)]
    } else {
        seq![c]
    }
}

/// The escaped characters of `s`.
pub open spec fn json_escaped(s: Seq<char>) -> Seq<char>
    decreases s.len(),
{
    if s.len() == 0 {
        Seq::empty()
    } else {
        json_escaped(s.drop_last()) + json_escape_char(s.last())
    }
}

/// The JSON string literal of `s`.
pub open spec fn json_string_literal(s: Seq<char>) -> Seq<char> {
    seq!['"'] + json_escaped(s) + seq!['"']
}

/// The JSON of an optional string: its literal, or `null`.
pub open spec fn json_opt_string(s: Option<Seq<char>>) -> Seq<char> {
    match s {
        Some(v) => json_string_literal(v),
        None => "null"@,
    }
}

/// The comma-separated literals of `ss`.
pub open spec fn json_items(ss: Seq<Seq<char>>) -> Seq<char>
    decreases ss.len(),
{
    if ss.len() == 0 {
        Seq::empty()
    } else if ss.len() == 1 {
        json_string_literal(ss[0])
    } else {
        json_items(ss.drop_last()) + ","@ + json_string_literal(ss.last())
    }
}

/// The JSON array of the strings `ss`.
pub open spec fn json_string_array(ss: Seq<Seq<char>>) -> Seq<char> {
    "["@ + json_items(ss) + "]"@
}

/// `true` or `false`.
pub open spec fn json_bool(b: bool) -> Seq<char> {
    if b {
        "true"@
    } else {
        "false"@
    }
}

/// The comma-separated `"key":bool` members of `es`.
pub open spec fn json_flag_members(es: Seq<(Seq<char>, bool)>) -> Seq<char>
    decreases es.len(),
{
    if es.len() == 0 {
        Seq::empty()
    } else if es.len() == 1 {
        json_string_literal(es[0].0) + ":"@ + json_bool(es[0].1)
    } else {
        json_flag_members(es.drop_last()) + ","@ + json_string_literal(es.last().0) + ":"@
            + json_bool(es.last().1)
    }
}

/// The JSON object of the named flags `es`, members in the order given.
pub open spec fn json_flag_object(es: Seq<(Seq<char>, bool)>) -> Seq<char> {
    "{"@ + json_flag_members(es) + "}"@
}

/// The views of a list of named flags.
pub open spec fn flag_views(v: Seq<(String, bool)>) -> Seq<(Seq<char>, bool)> {
    Seq::new(v.len(), |i: int| (v[i].0@, v[i].1))
}

/// Appends the JSON array of `items`.
pub fn append_json_string_array(out: &mut String, items: &Vec<String>)
    ensures
        final(out)@ == old(out)@ + json_string_array(views(items@)),
{
    out.append("[");
    let ghost start = out@;
    let ghost vs = views(items@);
    let mut i: usize = 0;
    while i < items.len()
        invariant
            i <= items.len(),
            vs == views(items@),
            out@ == start + json_items(vs.take(i as int)),
        decreases items.len() - i,
    {
        proof {
            assert(vs.take(i + 1).drop_last() =~= vs.take(i as int));
        }
        if i > 0 {
            out.append(",");
        }
        let q = json_quote(items[i].as_str());
        out.append(q.as_str());
        i = i + 1;
    }
    proof {
        assert(vs.take(i as int) =~= vs);
    }
    out.append("]");
}

/// Appends `true` or `false`.
pub fn append_json_bool(out: &mut String, b: bool)
    ensures
        final(out)@ == old(out)@ + json_bool(b),
{
    if b {
        out.append("true");
    } else {
        out.append("false");
    }
}

/// Appends the JSON object of the named flags `items`.
pub fn append_json_flag_object(out: &mut String, items: &Vec<(String, bool)>)
    ensures
        final(out)@ == old(out)@ + json_flag_object(flag_views(items@)),
{
    out.append("{");
    let ghost start = out@;
    let ghost vs = flag_views(items@);
    let mut i: usize = 0;
    while i < items.len()
        invariant
            i <= items.len(),
            vs == flag_views(items@),
            out@ == start + json_flag_members(vs.take(i as int)),
        decreases items.len() - i,
    {
        proof {
            assert(vs.take(i + 1).drop_last() =~= vs.take(i as int));
        }
        if i > 0 {
            out.append(",");
        }
        let q = json_quote(items[i].0.as_str());
        out.append(q.as_str());
        out.append(":");
        append_json_bool(out, items[i].1);
        i = i + 1;
    }
    proof {
        assert(vs.take(i as int) =~= vs);
    }
    out.append("}");
}

/// `serde_json::to_string` of a `&str`: the string literal with `serde_json`'s escapes.
/// Serializing a string into memory cannot fail.
#[verifier::external_body]
pub(crate) fn json_quote(s: &str) -> (r: String)
    ensures
        r@ == json_string_literal(s@),
{
    serde_json::to_string(s).unwrap()
}

/// A member of a JSON object as the companion reads it: absent, a string, or some other
/// value.
#[derive(Debug, Clone)]
pub enum JsonField {
    Absent,
    Text(String),
    Other,
}

/// The text of the first member that is present (`get(a).or_else(|| get(b))…`), when that
/// member is a string.
pub open spec fn first_present_text(fields: Seq<JsonField>) -> Option<Seq<char>>
    decreases fields.len(),
{
    if fields.len() == 0 {
        None
    } else {
        match fields[0] {
            JsonField::Absent => first_present_text(fields.drop_first()),
            JsonField::Text(s) => Some(s@),
            JsonField::Other => None,
        }
    }
}

/// The text of the first present member among `fields` (see `first_present_text`).
pub fn first_present(fields: &Vec<JsonField>) -> (r: Option<String>)
    ensures
        match first_present_text(fields@) {
            Some(t) => r matches Some(s) && s@ == t,
            None => r is None,
        },
{
    let mut i: usize = 0;
    assert(fields@.skip(0) =~= fields@);
    while i < fields.len()
        invariant
            i <= fields.len(),
            first_present_text(fields@) == first_present_text(fields@.skip(i as int)),
        decreases fields.len() - i,
    {
        proof {
            assert(fields@.skip(i as int).drop_first() =~= fields@.skip(i + 1));
            assert(fields@.skip(i as int)[0] == fields@[i as int]);
        }
        match &fields[i] {
            JsonField::Absent => {},
            JsonField::Text(s) => return Some(s.clone()),
            JsonField::Other => return None,
        }
        i = i + 1;
    }
    None
}

/// The text of the first present member among `a`, `b`, `c` (see `first_present_text`).
pub fn first_present_of_three(a: &JsonField, b: &JsonField, c: &JsonField) -> (r: Option<String>)
    ensures
        match first_present_text(seq![*a, *b, *c]) {
            Some(t) => r matches Some(s) && s@ == t,
            None => r is None,
        },
{
    proof {
        let s = seq![*a, *b, *c];
        assert(s.drop_first() =~= seq![*b, *c]);
        assert(s.drop_first().drop_first() =~= seq![*c]);
        assert(s.drop_first().drop_first().drop_first() =~= Seq::<JsonField>::empty());
        reveal_with_fuel(first_present_text, 4);
    }
    match a {
        JsonField::Text(s) => return Some(s.clone()),
        JsonField::Other => return None,
        JsonField::Absent => {},
    }
    match b {
        JsonField::Text(s) => return Some(s.clone()),
        JsonField::Other => return None,
        JsonField::Absent => {},
    }
    match c {
        JsonField::Text(s) => Some(s.clone()),
        _ => None,
    }
}

/// A parsed JSON document.
#[verifier::external_type_specification]
#[verifier::external_body]
pub struct ExJsonValue(serde_json::Value);

/// The error text of `serde_json::from_str::<Value>` on `text`, or `None` when it parses.
pub uninterp spec fn json_parse_error(text: Seq<char>) -> Option<Seq<char>>;

/// The value `serde_json::from_str::<Value>` makes of `text`, when it parses.
pub uninterp spec fn json_value_of(text: Seq<char>) -> serde_json::Value;

/// `serde_json::from_str::<serde_json::Value>`, with the error as its display text.
/// Whether it fails, the message and the value depend on the text alone.
#[verifier::external_body]
pub(crate) fn parse_json(text: &str) -> (r: Result<serde_json::Value, String>)
    ensures
        match r {
            Ok(v) => json_parse_error(text@) is None && v == json_value_of(text@),
            Err(e) => json_parse_error(text@) == Some(e@),
        },
{
    serde_json::from_str(text).map_err(|e| e.to_string())
}

/// What `Value::get(key)` gives on `v`: the member `key` of an object, else nothing.
pub uninterp spec fn json_member_of(v: serde_json::Value, key: Seq<char>) -> Option<serde_json::Value>;

/// `Value::get(key)`, cloned.
#[verifier::external_body]
pub(crate) fn json_member(v: &serde_json::Value, key: &str) -> (r: Option<serde_json::Value>)
    ensures
        r == json_member_of(*v, key@),
{
    v.get(key).cloned()
}

/// What `Value::pointer(pointer)` gives on `v` (RFC 6901 JSON pointer).
pub uninterp spec fn json_pointer_of(v: serde_json::Value, pointer: Seq<char>) -> Option<serde_json::Value>;

/// `Value::pointer(pointer)`, cloned.
#[verifier::external_body]
pub(crate) fn json_pointer(v: &serde_json::Value, pointer: &str) -> (r: Option<serde_json::Value>)
    ensures
        r == json_pointer_of(*v, pointer@),
{
    v.pointer(pointer).cloned()
}

/// What `Value::as_bool` gives on `v`: the boolean it is, else nothing.
pub uninterp spec fn json_bool_of(v: serde_json::Value) -> Option<bool>;

/// `Value::as_bool`.
#[verifier::external_body]
pub(crate) fn json_as_bool(v: &serde_json::Value) -> (r: Option<bool>)
    ensures
        r == json_bool_of(*v),
{
    v.as_bool()
}

/// What `Value::as_str` gives on `v`: the string it is, else nothing.
pub uninterp spec fn json_str_of(v: serde_json::Value) -> Option<Seq<char>>;

/// `Value::as_str`, owned.
#[verifier::external_body]
pub(crate) fn json_as_str(v: &serde_json::Value) -> (r: Option<String>)
    ensures
        match r {
            Some(s) => json_str_of(*v) == Some(s@),
            None => json_str_of(*v) is None,
        },
{
    v.as_str().map(|s| s.to_string())
}

} // verus!
