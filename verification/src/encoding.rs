//! Text encodings used by the device identity and signing code: base64 (standard and
//! URL-safe alphabets), lowercase hex, decimal numbers, `str::lines` and joins.
use vstd::prelude::*;
use crate::cli_install::split_char;
use crate::text::{chars_of, starts_with, string_from_chars, sub_vec};

verus! {

/// The base64 digit for the 6-bit value `x`; `url_safe` picks the `-`/`_` alphabet.
pub open spec fn b64_digit(x: int, url_safe: bool) -> char {
    if x < 26 {
        (65 + x) as char
    } else if x < 52 {
        (97 + x - 26) as char
    } else if x < 62 {
        (48 + x - 52) as char
    } else if x == 62 {
        if url_safe {
            '-'
        } else {
            '+'
        }
    } else {
        if url_safe {
            '_'
        } else {
            '/'
        }
    }
}

/// Base64 (RFC 4648) of `d`: each 3 bytes become 4 digits; a final 1 or 2 bytes become
/// 2 or 3 digits, followed by `=` padding when `pad` holds.
pub open spec fn b64_encode(d: Seq<u8>, url_safe: bool, pad: bool) -> Seq<char>
    decreases d.len(),
{
    if d.len() == 0 {
        Seq::empty()
    } else if d.len() == 1 {
        seq![b64_digit((d[0] as int) / 4, url_safe), b64_digit(((d[0] as int) % 4) * 16, url_safe)] + (if pad {
            seq!['=', '=']
        } else {
            Seq::empty()
        })
    } else if d.len() == 2 {
        seq![
            b64_digit((d[0] as int) / 4, url_safe),
            b64_digit(((d[0] as int) % 4) * 16 + (d[1] as int) / 16, url_safe),
            b64_digit(((d[1] as int) % 16) * 4, url_safe),
        ] + (if pad {
            seq!['=']
        } else {
            Seq::empty()
        })
    } else {
        seq![
            b64_digit((d[0] as int) / 4, url_safe),
            b64_digit(((d[0] as int) % 4) * 16 + (d[1] as int) / 16, url_safe),
            b64_digit(((d[1] as int) % 16) * 4 + (d[2] as int) / 64, url_safe),
            b64_digit((d[2] as int) % 64, url_safe),
        ] + b64_encode(d.skip(3), url_safe, pad)
    }
}

/// Standard base64 with padding (`base64::engine::general_purpose::STANDARD`).
pub open spec fn b64_standard(d: Seq<u8>) -> Seq<char> {
    b64_encode(d, false, true)
}

/// URL-safe base64 without padding (`base64::engine::general_purpose::URL_SAFE_NO_PAD`).
pub open spec fn b64_url_no_pad(d: Seq<u8>) -> Seq<char> {
    b64_encode(d, true, false)
}

/// A character of the standard base64 alphabet or its padding.
pub open spec fn is_b64_standard_char(c: char) -> bool {
    ('A' <= c && c <= 'Z') || ('a' <= c && c <= 'z') || ('0' <= c && c <= '9') || c == '+' || c
        == '/' || c == '='
}

/// The lowercase hex digit for `x < 16`.
pub open spec fn hex_digit(x: int) -> char {
    if x < 10 {
        (48 + x) as char
    } else {
        (97 + x - 10) as char
    }
}

/// Lowercase hex of `d`, two digits per byte (`hex::encode`).
pub open spec fn hex_lower(d: Seq<u8>) -> Seq<char>
    decreases d.len(),
{
    if d.len() == 0 {
        Seq::empty()
    } else {
        hex_lower(d.drop_last()) + seq![hex_digit((d.last() as int) / 16), hex_digit((d.last() as int) % 16)]
    }
}

/// The decimal digits of `n` (`u64::to_string`).
pub open spec fn decimal(n: nat) -> Seq<char>
    decreases n,
{
    if n < 10 {
        seq![(48 + n) as char]
    } else {
        decimal(n / 10) + seq![(48 + n % 10) as char]
    }
}

/// `l` without one trailing carriage return.
pub open spec fn strip_cr(l: Seq<char>) -> Seq<char> {
    if l.len() > 0 && l.last() == '\r' {
        l.drop_last()
    } else {
        l
    }
}

/// What `str::lines` yields: the pieces between `\n`s, each line that a `\n` ends losing
/// one trailing `\r`, and no empty final line after a trailing `\n`.
pub open spec fn lines_of(s: Seq<char>) -> Seq<Seq<char>> {
    let p = split_char(s, '\n');
    let ended = Seq::new((p.len() - 1) as nat, |i: int| strip_cr(p[i]));
    if p.last().len() == 0 {
        ended
    } else {
        ended.push(p.last())
    }
}

/// `ss` joined with `sep` between neighbours (`[..].join(sep)`).
pub open spec fn join_with(ss: Seq<Seq<char>>, sep: Seq<char>) -> Seq<char>
    decreases ss.len(),
{
    if ss.len() == 0 {
        Seq::empty()
    } else if ss.len() == 1 {
        ss[0]
    } else {
        join_with(ss.drop_last(), sep) + sep + ss.last()
    }
}

/// The concatenation of the lines that do not start with `-----` (a PEM body).
pub open spec fn concat_body_lines(ls: Seq<Seq<char>>) -> Seq<char>
    decreases ls.len(),
{
    if ls.len() == 0 {
        Seq::empty()
    } else {
        concat_body_lines(ls.drop_last()) + (if starts_with(ls.last(), "-----"@) {
            Seq::empty()
        } else {
            ls.last()
        })
    }
}

/// The base64 body of a PEM text: its lines without the `-----` armor lines, concatenated.
pub open spec fn pem_body(pem: Seq<char>) -> Seq<char> {
    concat_body_lines(lines_of(pem))
}

pub proof fn lemma_b64_digit_standard(x: int)
    requires
        0 <= x < 64,
    ensures
        is_b64_standard_char(b64_digit(x, false)),
        b64_digit(x, false) != '='
{
}

/// Every character of standard base64 output is in the alphabet or padding.
pub proof fn lemma_b64_standard_chars(d: Seq<u8>)
    ensures
        forall|i: int|
            0 <= i < b64_standard(d).len() ==> is_b64_standard_char(#[trigger] b64_standard(d)[i]),
    decreases d.len(),
{
    let e = b64_standard(d);
    if d.len() == 0 {
    } else if d.len() <= 2 {
        lemma_b64_digit_standard((d[0] as int) / 4);
        if d.len() == 1 {
            lemma_b64_digit_standard(((d[0] as int) % 4) * 16);
        } else {
            lemma_b64_digit_standard(((d[0] as int) % 4) * 16 + (d[1] as int) / 16);
            lemma_b64_digit_standard(((d[1] as int) % 16) * 4);
        }
    } else {
        lemma_b64_digit_standard((d[0] as int) / 4);
        lemma_b64_digit_standard(((d[0] as int) % 4) * 16 + (d[1] as int) / 16);
        lemma_b64_digit_standard(((d[1] as int) % 16) * 4 + (d[2] as int) / 64);
        lemma_b64_digit_standard((d[2] as int) % 64);
        lemma_b64_standard_chars(d.skip(3));
        let head = seq![
            b64_digit((d[0] as int) / 4, false),
            b64_digit(((d[0] as int) % 4) * 16 + (d[1] as int) / 16, false),
            b64_digit(((d[1] as int) % 16) * 4 + (d[2] as int) / 64, false),
            b64_digit((d[2] as int) % 64, false),
        ];
        assert(e == head + b64_standard(d.skip(3)));
        assert forall|i: int| 0 <= i < e.len() implies is_b64_standard_char(#[trigger] e[i]) by {
            if i >= 4 {
                assert(e[i] == b64_standard(d.skip(3))[i - 4]);
            }
        }
    }
}

/// Length of the base64 encoding: four characters per started group of three bytes
/// (when padded).
pub proof fn lemma_b64_standard_len(d: Seq<u8>)
    ensures
        b64_standard(d).len() == 4 * ((d.len() + 2) / 3),
    decreases d.len(),
{
    if d.len() > 2 {
        lemma_b64_standard_len(d.skip(3));
    }
}

/// Unpadded base64 has four digits per three bytes and `r + 1` digits for a final `r`
/// bytes.
pub proof fn lemma_b64_unpadded_len(d: Seq<u8>, url_safe: bool)
    ensures
        b64_encode(d, url_safe, false).len() == 4 * (d.len() / 3) + (if d.len() % 3 == 0 {
            0
        } else {
            d.len() % 3 + 1
        }),
    decreases d.len(),
{
    if d.len() > 2 {
        lemma_b64_unpadded_len(d.skip(3), url_safe);
    }
}

/// `split_char` of a piece without separators is that piece alone.
pub proof fn lemma_split_no_sep(t: Seq<char>, c: char)
    requires
        forall|i: int| 0 <= i < t.len() ==> t[i] != c,
    ensures
        split_char(t, c) == seq![t],
    decreases t.len(),
{
    if t.len() == 0 {
        assert(t =~= Seq::<char>::empty());
    } else {
        lemma_split_no_sep(t.drop_last(), c);
        assert(t.drop_last().push(t.last()) =~= t);
        assert(seq![t.drop_last()].update(0, t.drop_last().push(t.last())) =~= seq![t]);
    }
}

/// Appending a separator and a separator-free piece adds that piece to the split.
pub proof fn lemma_split_append(s: Seq<char>, t: Seq<char>, c: char)
    requires
        forall|i: int| 0 <= i < t.len() ==> t[i] != c,
    ensures
        split_char(s + seq![c] + t, c) == split_char(s, c).push(t),
    decreases t.len(),
{
    if t.len() == 0 {
        assert(s + seq![c] + t =~= s.push(c));
        assert((s.push(c)).drop_last() =~= s);
        assert(t =~= Seq::<char>::empty());
    } else {
        lemma_split_append(s, t.drop_last(), c);
        let whole = s + seq![c] + t;
        assert(whole.drop_last() =~= s + seq![c] + t.drop_last());
        assert(whole.last() == t.last());
        let r = split_char(s, c).push(t.drop_last());
        assert(t.drop_last().push(t.last()) =~= t);
        assert(r.last() == t.drop_last());
        assert(r.update(r.len() - 1, r.last().push(t.last())) =~= split_char(s, c).push(t));
    }
}

fn push_decimal(out: &mut Vec<char>, n: u64)
    ensures
        final(out)@ == old(out)@ + decimal(n as nat),
    decreases n,
{
    if n >= 10 {
        push_decimal(out, n / 10);
    }
    let c = ((48 + n % 10) as u8) as char;
    out.push(c);
    proof {
        if n < 10 {
            assert(decimal(n as nat) == seq![c]);
        } else {
            assert(decimal(n as nat) == decimal((n / 10) as nat) + seq![c]);
        }
    }
}

/// The characters of `u64::to_string`.
pub fn decimal_string(n: u64) -> (r: String)
    ensures
        r@ == decimal(n as nat),
{
    let mut digits: Vec<char> = Vec::new();
    push_decimal(&mut digits, n);
    assert(digits@ =~= decimal(n as nat));
    string_from_chars(&digits)
}

/// `i32` in decimal, with a leading `-` when negative.
pub open spec fn signed_decimal(n: int) -> Seq<char> {
    if n < 0 {
        "-"@ + decimal((-n) as nat)
    } else {
        decimal(n as nat)
    }
}

/// An optional exit code as `{:?}` prints it: `Some(<code>)` or `None`.
pub open spec fn exit_code_debug(code: Option<i32>) -> Seq<char> {
    match code {
        Some(c) => "Some("@ + signed_decimal(c as int) + ")"@,
        None => "None"@,
    }
}

/// `i32` in decimal.
pub fn signed_decimal_string(n: i32) -> (r: String)
    ensures
        r@ == signed_decimal(n as int),
{
    if n < 0 {
        let m: i64 = -(n as i64);
        let mut s = String::from_str("-");
        let d = decimal_string(m as u64);
        s.append(d.as_str());
        s
    } else {
        decimal_string(n as u64)
    }
}

/// The lines of `s` as `str::lines` gives them (see `lines_of`).
pub fn text_lines(s: &str) -> (r: Vec<String>)
    ensures
        crate::device_auth::views(r@) == lines_of(s@),
{
    let v = chars_of(s);
    let mut out: Vec<String> = Vec::new();
    let mut cur: Vec<char> = Vec::new();
    let mut i: usize = 0;
    proof {
        assert(v@.take(0) =~= Seq::<char>::empty());
        let p0 = split_char(v@.take(0), '\n');
        assert(Seq::new((p0.len() - 1) as nat, |j: int| strip_cr(p0[j])) =~= Seq::<
            Seq<char>,
        >::empty());
        assert(crate::device_auth::views(out@) =~= Seq::<Seq<char>>::empty());
    }
    while i < v.len()
        invariant
            i <= v.len(),
            v@ == s@,
            split_char(v@.take(i as int), '\n').len() >= 1,
            split_char(v@.take(i as int), '\n').last() == cur@,
            crate::device_auth::views(out@) == Seq::new(
                (split_char(v@.take(i as int), '\n').len() - 1) as nat,
                |j: int| strip_cr(split_char(v@.take(i as int), '\n')[j]),
            ),
        decreases v.len() - i,
    {
        let ghost p = split_char(v@.take(i as int), '\n');
        let ghost ended = Seq::new((p.len() - 1) as nat, |j: int| strip_cr(p[j]));
        proof {
            assert(v@.take(i + 1).drop_last() =~= v@.take(i as int));
            assert(v@.take(i + 1).last() == v@[i as int]);
        }
        if v[i] == '\n' {
            let n = cur.len();
            let end = if n > 0 && cur[n - 1] == '\r' {
                n - 1
            } else {
                n
            };
            proof {
                assert(cur@.subrange(0, end as int) == strip_cr(cur@)) by {
                    if n > 0 && cur@[n - 1] == '\r' {
                        assert(cur@.subrange(0, end as int) =~= cur@.drop_last());
                    } else {
                        assert(cur@.subrange(0, end as int) =~= cur@);
                    }
                }
            }
            let line = sub_vec(&cur, 0, end);
            out.push(string_from_chars(&line));
            proof {
                let np = split_char(v@.take(i + 1), '\n');
                assert(np == p.push(Seq::empty()));
                let nended = Seq::new((np.len() - 1) as nat, |j: int| strip_cr(np[j]));
                assert(nended =~= ended.push(strip_cr(cur@)));
                assert(crate::device_auth::views(out@) =~= nended);
            }
            cur = Vec::new();
        } else {
            cur.push(v[i]);
            proof {
                let np = split_char(v@.take(i + 1), '\n');
                assert(np == p.update(p.len() - 1, p.last().push(v@[i as int])));
                let nended = Seq::new((np.len() - 1) as nat, |j: int| strip_cr(np[j]));
                assert(nended =~= ended);
            }
        }
        i = i + 1;
    }
    proof {
        assert(v@.take(v.len() as int) =~= v@);
    }
    let ghost p = split_char(s@, '\n');
    let ghost ended = Seq::new((p.len() - 1) as nat, |j: int| strip_cr(p[j]));
    if cur.len() > 0 {
        let ghost before = out@;
        out.push(string_from_chars(&cur));
        proof {
            assert(crate::device_auth::views(out@) =~= ended.push(cur@));
        }
    }
    out
}

/// An optional exit code as `{:?}` prints it (see `exit_code_debug`).
pub fn exit_code_debug_string(code: Option<i32>) -> (r: String)
    ensures
        r@ == exit_code_debug(code),
{
    match code {
        Some(c) => {
            let mut s = String::from_str("Some(");
            let d = signed_decimal_string(c);
            s.append(d.as_str());
            s.append(")");
            s
        },
        None => String::from_str("None"),
    }
}

} // verus!
