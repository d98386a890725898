//! Device auth payload signing for the gateway handshake.
use vstd::prelude::*;
use crate::cli_install::split_char;
use crate::crypto::{
    b64_standard_decoded, base64_standard_decode, base64_url_encode, char_to_lowercase,
    ed25519_sign, ed25519_signature_of, hex_encode, lowercase_of, now_unix_ms, opt_bytes,
    sha256_digest, sha256_of,
};
use crate::encoding::{
    b64_url_no_pad, concat_body_lines, decimal, decimal_string, hex_lower, join_with, lines_of,
    pem_body, strip_cr,
};
use crate::text::{chars_of, has_prefix_in, opt_view, string_from_chars, trim, trim_bounds};

verus! {

/// Key material of the device identity used to sign the connect handshake.
#[derive(Debug, Clone)]
pub struct DeviceSigningMaterial {
    pub device_id: String,
    pub public_key_pem: String,
    pub private_key_pem: String,
}

/// The signed device block of a `connect` request.
#[derive(Debug, Clone)]
pub struct ConnectDevice {
    pub id: String,
    pub public_key: String,
    pub signature: String,
    pub signed_at: u64,
    pub nonce: String,
}

/// DER prefix of an Ed25519 SubjectPublicKeyInfo (followed by the 32 key bytes).
pub open spec fn spki_prefix() -> Seq<u8> {
    seq![0x30u8, 0x2a, 0x30, 0x05, 0x06, 0x03, 0x2b, 0x65, 0x70, 0x03, 0x21, 0x00]
}

/// DER prefix of an Ed25519 PKCS#8 private key (followed by the 32 secret bytes).
pub open spec fn pkcs8_prefix() -> Seq<u8> {
    seq![
        0x30u8, 0x2e, 0x02, 0x01, 0x00, 0x30, 0x05, 0x06, 0x03, 0x2b, 0x65, 0x70, 0x04, 0x22,
        0x04, 0x20,
    ]
}

/// The 32 key bytes of a DER blob that is `prefix` followed by exactly 32 bytes.
pub open spec fn key_after_prefix(der: Option<Seq<u8>>, prefix: Seq<u8>) -> Option<Seq<u8>> {
    match der {
        Some(d) => if d.len() == prefix.len() + 32 && d.subrange(0, prefix.len() as int)
            == prefix {
            Some(d.subrange(prefix.len() as int, d.len() as int))
        } else {
            None
        },
        None => None,
    }
}

/// The raw public key held by a PEM `PUBLIC KEY` text.
pub open spec fn public_key_raw_of(pem: Seq<char>) -> Option<Seq<u8>> {
    key_after_prefix(b64_standard_decoded(pem_body(pem)), spki_prefix())
}

/// The raw secret key held by a PEM `PRIVATE KEY` text.
pub open spec fn secret_key_raw_of(pem: Seq<char>) -> Option<Seq<u8>> {
    key_after_prefix(b64_standard_decoded(pem_body(pem)), pkcs8_prefix())
}

/// `s` with each character replaced by its Unicode lowercase mapping.
pub open spec fn lowercase_all(s: Seq<char>) -> Seq<char>
    decreases s.len(),
{
    if s.len() == 0 {
        Seq::empty()
    } else {
        lowercase_all(s.drop_last()) + lowercase_of(s.last())
    }
}

/// Platform and device-family metadata as signed: trimmed, then lowercased.
pub open spec fn normalized_metadata(s: Seq<char>) -> Seq<char> {
    lowercase_all(trim(s))
}

/// The text of an optional value, empty when absent.
pub open spec fn or_empty(s: Option<Seq<char>>) -> Seq<char> {
    match s {
        Some(v) => v,
        None => Seq::empty(),
    }
}

/// The v3 device auth payload: eleven `|`-separated fields.
pub open spec fn device_auth_payload_v3(
    device_id: Seq<char>,
    client_id: Seq<char>,
    client_mode: Seq<char>,
    role: Seq<char>,
    scopes: Seq<Seq<char>>,
    signed_at_ms: nat,
    token: Option<Seq<char>>,
    nonce: Seq<char>,
    platform: Option<Seq<char>>,
    device_family: Option<Seq<char>>,
) -> Seq<char> {
    join_with(
        seq![
            "v3"@,
            device_id,
            client_id,
            client_mode,
            role,
            join_with(scopes, ","@),
            decimal(signed_at_ms),
            or_empty(token),
            nonce,
            normalized_metadata(or_empty(platform)),
            normalized_metadata(or_empty(device_family)),
        ],
        "|"@,
    )
}

/// The views of a sequence of strings.
pub open spec fn views(ss: Seq<String>) -> Seq<Seq<char>> {
    Seq::new(ss.len(), |i: int| ss[i]@)
}

/// The UTF-8 bytes of the text `s`.
pub open spec fn utf8_of(s: Seq<char>) -> Seq<u8> {
    vstd::utf8::encode_utf8(s)
}

fn pem_body_chars(pem: &str) -> (r: Vec<char>)
    ensures
        r@ == pem_body(pem@),
{
    let v = chars_of(pem);
    let dashes = chars_of("-----");
    let mut acc: Vec<char> = Vec::new();
    let mut cur: Vec<char> = Vec::new();
    let mut i: usize = 0;
    proof {
        assert(v@.take(0) =~= Seq::<char>::empty());
        let p0 = split_char(v@.take(0), '\n');
        assert(Seq::new((p0.len() - 1) as nat, |j: int| strip_cr(p0[j])) =~= Seq::<
            Seq<char>,
        >::empty());
    }
    while i < v.len()
        invariant
            i <= v.len(),
            v@ == pem@,
            dashes@ == "-----"@,
            split_char(v@.take(i as int), '\n').len() >= 1,
            split_char(v@.take(i as int), '\n').last() == cur@,
            acc@ == concat_body_lines(
                Seq::new(
                    (split_char(v@.take(i as int), '\n').len() - 1) as nat,
                    |j: int| strip_cr(split_char(v@.take(i as int), '\n')[j]),
                ),
            ),
        decreases v.len() - i,
    {
        let ghost p = split_char(v@.take(i as int), '\n');
        let ghost ended = Seq::new((p.len() - 1) as nat, |j: int| strip_cr(p[j]));
        proof {
            assert(v@.take(i + 1).drop_last() =~= v@.take(i as int));
            assert(v@.take(i + 1).last() == v@[i as int]);
        }
        if v[i] == '\n' {
            let n = cur.len();
            let end = if n > 0 && cur[n - 1] == '\r' {
                n - 1
            } else {
                n
            };
            proof {
                assert(cur@.subrange(0, end as int) == strip_cr(cur@)) by {
                    if n > 0 && cur@[n - 1] == '\r' {
                        assert(cur@.subrange(0, end as int) =~= cur@.drop_last());
                    } else {
                        assert(cur@.subrange(0, end as int) =~= cur@);
                    }
                }
            }
            let is_armor = has_prefix_in(&cur, 0, end, &dashes);
            let ghost before = acc@;
            if !is_armor {
                let mut k: usize = 0;
                while k < end
                    invariant
                        k <= end <= cur.len(),
                        acc@ == before + cur@.subrange(0, k as int),
                    decreases end - k,
                {
                    acc.push(cur[k]);
                    k = k + 1;
                    proof {
                        assert(cur@.subrange(0, k as int) =~= cur@.subrange(0, k - 1).push(
                            cur@[k - 1],
                        ));
                    }
                }
            }
            proof {
                let np = split_char(v@.take(i + 1), '\n');
                assert(np == p.push(Seq::empty()));
                let nended = Seq::new((np.len() - 1) as nat, |j: int| strip_cr(np[j]));
                assert(nended =~= ended.push(strip_cr(cur@)));
                assert(nended.drop_last() =~= ended);
                if is_armor {
                    assert(acc@ =~= before + Seq::<char>::empty());
                } else {
                    assert(acc@ =~= before + strip_cr(cur@));
                }
            }
            cur = Vec::new();
        } else {
            cur.push(v[i]);
            proof {
                let np = split_char(v@.take(i + 1), '\n');
                assert(np == p.update(p.len() - 1, p.last().push(v@[i as int])));
                let nended = Seq::new((np.len() - 1) as nat, |j: int| strip_cr(np[j]));
                assert(nended =~= ended);
            }
        }
        i = i + 1;
    }
    proof {
        assert(v@.take(v.len() as int) =~= v@);
    }
    let ghost p = split_char(pem@, '\n');
    let ghost ended = Seq::new((p.len() - 1) as nat, |j: int| strip_cr(p[j]));
    let n = cur.len();
    if n > 0 && !has_prefix_in(&cur, 0, n, &dashes) {
        let ghost before = acc@;
        let mut k: usize = 0;
        while k < n
            invariant
                k <= n == cur.len(),
                acc@ == before + cur@.subrange(0, k as int),
            decreases n - k,
        {
            acc.push(cur[k]);
            k = k + 1;
            proof {
                assert(cur@.subrange(0, k as int) =~= cur@.subrange(0, k - 1).push(cur@[k - 1]));
            }
        }
        proof {
            assert(cur@.subrange(0, n as int) =~= cur@);
            assert(lines_of(pem@) == ended.push(cur@));
            assert(lines_of(pem@).drop_last() =~= ended);
        }
    } else {
        proof {
            if n == 0 {
                assert(lines_of(pem@) == ended);
            } else {
                assert(cur@.subrange(0, n as int) =~= cur@);
                assert(lines_of(pem@).drop_last() =~= ended);
                assert(acc@ =~= acc@ + Seq::<char>::empty());
            }
        }
    }
    acc
}

/// The base64 body of a PEM text (its non-armor lines, concatenated).
pub fn pem_body_text(pem: &str) -> (r: String)
    ensures
        r@ == pem_body(pem@),
{
    let body = pem_body_chars(pem);
    string_from_chars(&body)
}

fn key_from_pem(pem: &str, prefix: &Vec<u8>) -> (r: Option<Vec<u8>>)
    requires
        prefix@ == spki_prefix() || prefix@ == pkcs8_prefix(),
    ensures
        opt_bytes(r) == key_after_prefix(b64_standard_decoded(pem_body(pem@)), prefix@),
{
    let body = pem_body_text(pem);
    let der = match base64_standard_decode(body.as_str()) {
        Some(d) => d,
        None => return None,
    };
    let plen = prefix.len();
    if der.len() != plen + 32 {
        return None;
    }
    let mut i: usize = 0;
    while i < plen
        invariant
            i <= plen == prefix.len(),
            der.len() == plen + 32,
            Some(der@) == b64_standard_decoded(pem_body(pem@)),
            forall|k: int| 0 <= k < i ==> der@[k] == prefix@[k],
        decreases plen - i,
    {
        if der[i] != prefix[i] {
            assert(der@.subrange(0, plen as int)[i as int] != prefix@[i as int]);
            return None;
        }
        i = i + 1;
    }
    assert(der@.subrange(0, plen as int) =~= prefix@);
    let mut raw: Vec<u8> = Vec::new();
    let mut j: usize = plen;
    while j < der.len()
        invariant
            plen <= j <= der.len(),
            raw@ == der@.subrange(plen as int, j as int),
        decreases der.len() - j,
    {
        raw.push(der[j]);
        j = j + 1;
        assert(raw@ =~= der@.subrange(plen as int, j as int));
    }
    Some(raw)
}

fn spki_prefix_vec() -> (r: Vec<u8>)
    ensures
        r@ == spki_prefix(),
{
    let r = vec![0x30u8, 0x2a, 0x30, 0x05, 0x06, 0x03, 0x2b, 0x65, 0x70, 0x03, 0x21, 0x00];
    assert(r@ =~= spki_prefix());
    r
}

fn pkcs8_prefix_vec() -> (r: Vec<u8>)
    ensures
        r@ == pkcs8_prefix(),
{
    let r = vec![
        0x30u8, 0x2e, 0x02, 0x01, 0x00, 0x30, 0x05, 0x06, 0x03, 0x2b, 0x65, 0x70, 0x04, 0x22,
        0x04, 0x20,
    ];
    assert(r@ =~= pkcs8_prefix());
    r
}

/// The raw 32-byte Ed25519 public key of a PEM `PUBLIC KEY` text.
pub fn extract_public_key_raw(public_key_pem: &str) -> (r: Option<Vec<u8>>)
    ensures
        opt_bytes(r) == public_key_raw_of(public_key_pem@),
{
    let prefix = spki_prefix_vec();
    key_from_pem(public_key_pem, &prefix)
}

/// The raw 32-byte Ed25519 secret key of a PEM `PRIVATE KEY` text.
pub fn extract_signing_key(private_key_pem: &str) -> (r: Option<Vec<u8>>)
    ensures
        opt_bytes(r) == secret_key_raw_of(private_key_pem@),
{
    let prefix = pkcs8_prefix_vec();
    key_from_pem(private_key_pem, &prefix)
}

/// The public key of a PEM text as URL-safe unpadded base64, when the PEM holds an
/// Ed25519 public key.
pub fn public_key_raw_base64_url(public_key_pem: &str) -> (r: Option<String>)
    ensures
        match public_key_raw_of(public_key_pem@) {
            Some(raw) => r matches Some(s) && s@ == b64_url_no_pad(raw),
            None => r is None,
        },
{
    match extract_public_key_raw(public_key_pem) {
        Some(raw) => Some(base64_url_encode(raw.as_slice())),
        None => None,
    }
}

/// The Ed25519 signature of the UTF-8 bytes of `payload` under the PEM private key, as
/// URL-safe unpadded base64, when the PEM holds an Ed25519 private key.
pub fn sign_payload(private_key_pem: &str, payload: &str) -> (r: Option<String>)
    ensures
        match secret_key_raw_of(private_key_pem@) {
            Some(secret) => r matches Some(s) && s@ == b64_url_no_pad(
                ed25519_signature_of(secret, utf8_of(payload@)),
            ),
            None => r is None,
        },
        r matches Some(s) ==> s@.len() == 86,
{
    match extract_signing_key(private_key_pem) {
        Some(secret) => {
            let sig = ed25519_sign(secret.as_slice(), payload.as_bytes());
            proof {
                crate::encoding::lemma_b64_unpadded_len(sig@, true);
            }
            Some(base64_url_encode(sig.as_slice()))
        },
        None => None,
    }
}

/// The device id of a PEM public key: lowercase hex of the SHA-256 of the raw key.
pub fn fingerprint_pem(public_key_pem: &str) -> (r: Option<String>)
    ensures
        match public_key_raw_of(public_key_pem@) {
            Some(raw) => r matches Some(s) && s@ == hex_lower(sha256_of(raw)),
            None => r is None,
        },
{
    match extract_public_key_raw(public_key_pem) {
        Some(raw) => {
            let digest = sha256_digest(raw.as_slice());
            Some(hex_encode(digest.as_slice()))
        },
        None => None,
    }
}

/// Platform metadata as signed: trimmed, then lowercased character by character.
pub fn normalize_metadata(value: &str) -> (r: String)
    ensures
        r@ == normalized_metadata(value@),
{
    let v = chars_of(value);
    let (a, b) = trim_bounds(&v);
    let mut out: Vec<char> = Vec::new();
    let mut i: usize = a;
    proof {
        assert(v@.subrange(a as int, a as int) =~= Seq::<char>::empty());
    }
    while i < b
        invariant
            a <= i <= b <= v.len(),
            out@ == lowercase_all(v@.subrange(a as int, i as int)),
        decreases b - i,
    {
        let lower = char_to_lowercase(v[i]);
        let mut k: usize = 0;
        let ghost before = out@;
        while k < lower.len()
            invariant
                k <= lower.len(),
                out@ == before + lower@.take(k as int),
            decreases lower.len() - k,
        {
            out.push(lower[k]);
            k = k + 1;
            assert(lower@.take(k as int) =~= lower@.take(k - 1).push(lower@[k - 1]));
        }
        proof {
            assert(lower@.take(lower.len() as int) =~= lower@);
            let s1 = v@.subrange(a as int, i + 1);
            assert(s1.drop_last() =~= v@.subrange(a as int, i as int));
            assert(s1.last() == v@[i as int]);
        }
        i = i + 1;
    }
    string_from_chars(&out)
}

fn join_strings(parts: &[String], sep: &str) -> (r: String)
    ensures
        r@ == join_with(views(parts@), sep@),
{
    let mut out = String::new();
    let mut i: usize = 0;
    while i < parts.len()
        invariant
            i <= parts.len(),
            out@ == join_with(views(parts@).take(i as int), sep@),
        decreases parts.len() - i,
    {
        proof {
            let t = views(parts@).take(i + 1);
            assert(t.drop_last() =~= views(parts@).take(i as int));
            assert(t.last() == parts@[i as int]@);
        }
        if i > 0 {
            out.append(sep);
        }
        out.append(parts[i].as_str());
        proof {
            if i == 0 {
                assert(views(parts@).take(1)[0] == parts@[0]@);
                assert(out@ =~= join_with(views(parts@).take(1), sep@));
            }
        }
        i = i + 1;
    }
    assert(views(parts@).take(parts.len() as int) =~= views(parts@));
    out
}

fn text_or_empty(s: Option<&str>) -> (r: String)
    ensures
        r@ == or_empty(opt_view(s)),
{
    match s {
        Some(v) => String::from_str(v),
        None => String::new(),
    }
}

/// The v3 device auth payload signed during the gateway handshake.
pub fn build_device_auth_payload_v3(
    device_id: &str,
    client_id: &str,
    client_mode: &str,
    role: &str,
    scopes: &[String],
    signed_at_ms: u64,
    token: Option<&str>,
    nonce: &str,
    platform: Option<&str>,
    device_family: Option<&str>,
) -> (r: String)
    ensures
        r@ == device_auth_payload_v3(
            device_id@,
            client_id@,
            client_mode@,
            role@,
            views(scopes@),
            signed_at_ms as nat,
            opt_view(token),
            nonce@,
            opt_view(platform),
            opt_view(device_family),
        ),
{
    let platform_text = text_or_empty(platform);
    let family_text = text_or_empty(device_family);
    let mut fields: Vec<String> = Vec::new();
    fields.push(String::from_str("v3"));
    fields.push(String::from_str(device_id));
    fields.push(String::from_str(client_id));
    fields.push(String::from_str(client_mode));
    fields.push(String::from_str(role));
    fields.push(join_strings(scopes, ","));
    fields.push(decimal_string(signed_at_ms));
    fields.push(text_or_empty(token));
    fields.push(String::from_str(nonce));
    fields.push(normalize_metadata(platform_text.as_str()));
    fields.push(normalize_metadata(family_text.as_str()));
    let r = join_strings(fields.as_slice(), "|");
    proof {
        let want = seq![
            "v3"@,
            device_id@,
            client_id@,
            client_mode@,
            role@,
            join_with(views(scopes@), ","@),
            decimal(signed_at_ms as nat),
            or_empty(opt_view(token)),
            nonce@,
            normalized_metadata(or_empty(opt_view(platform))),
            normalized_metadata(or_empty(opt_view(device_family))),
        ];
        assert(views(fields@) =~= want);
    }
    r
}

/// The device block for a connect request signed at `signed_at_ms`, when both keys of
/// `material` parse.
pub fn connect_device_at(
    material: &DeviceSigningMaterial,
    client_id: &str,
    client_mode: &str,
    role: &str,
    scopes: &[String],
    token: Option<&str>,
    nonce: &str,
    platform: Option<&str>,
    signed_at_ms: u64,
) -> (r: Option<ConnectDevice>)
    ensures
        match (secret_key_raw_of(material.private_key_pem@), public_key_raw_of(material.public_key_pem@)) {
            (Some(secret), Some(public)) => r matches Some(d) && d.id@ == material.device_id@
                && d.public_key@ == b64_url_no_pad(public) && d.signature@ == b64_url_no_pad(
                ed25519_signature_of(
                    secret,
                    utf8_of(
                        device_auth_payload_v3(
                            material.device_id@,
                            client_id@,
                            client_mode@,
                            role@,
                            views(scopes@),
                            signed_at_ms as nat,
                            opt_view(token),
                            nonce@,
                            opt_view(platform),
                            None,
                        ),
                    ),
                ),
            ) && d.signed_at == signed_at_ms && d.nonce@ == nonce@,
            _ => r is None,
        },
{
    let payload = build_device_auth_payload_v3(
        material.device_id.as_str(),
        client_id,
        client_mode,
        role,
        scopes,
        signed_at_ms,
        token,
        nonce,
        platform,
        None,
    );
    let signature = match sign_payload(material.private_key_pem.as_str(), payload.as_str()) {
        Some(s) => s,
        None => return None,
    };
    let public_key = match public_key_raw_base64_url(material.public_key_pem.as_str()) {
        Some(p) => p,
        None => return None,
    };
    Some(
        ConnectDevice {
            id: material.device_id.clone(),
            public_key,
            signature,
            signed_at: signed_at_ms,
            nonce: String::from_str(nonce),
        },
    )
}

/// The device block for a connect request, signed now. When the clock reads before the
/// epoch there is none; otherwise it is `connect_device_at` for the current time.
pub fn build_connect_device(
    material: &DeviceSigningMaterial,
    client_id: &str,
    client_mode: &str,
    role: &str,
    scopes: &[String],
    token: Option<&str>,
    nonce: &str,
    platform: Option<&str>,
) -> (r: Option<ConnectDevice>)
    ensures
        r matches Some(d) ==> match (
            secret_key_raw_of(material.private_key_pem@),
            public_key_raw_of(material.public_key_pem@),
        ) {
            (Some(secret), Some(public)) => d.id@ == material.device_id@ && d.public_key@
                == b64_url_no_pad(public) && d.signature@ == b64_url_no_pad(
                ed25519_signature_of(
                    secret,
                    utf8_of(
                        device_auth_payload_v3(
                            material.device_id@,
                            client_id@,
                            client_mode@,
                            role@,
                            views(scopes@),
                            d.signed_at as nat,
                            opt_view(token),
                            nonce@,
                            opt_view(platform),
                            None,
                        ),
                    ),
                ),
            ) && d.nonce@ == nonce@,
            _ => false,
        },
        secret_key_raw_of(material.private_key_pem@) is None ==> r is None,
        public_key_raw_of(material.public_key_pem@) is None ==> r is None,
{
    let now = match now_unix_ms() {
        Some(t) => t,
        None => return None,
    };
    connect_device_at(material, client_id, client_mode, role, scopes, token, nonce, platform, now)
}

} // verus!
