//! Device Ed25519 identity: PEM encoding of the key pair and the device id.
use vstd::prelude::*;
use crate::cli_install::split_char;
use crate::crypto::{
    base64_standard_encode, ed25519_public_key, ed25519_public_of, generate_secret_key,
    hex_encode, sha256_digest, sha256_of,
};
use crate::device_auth::{
    key_after_prefix, pkcs8_prefix, public_key_raw_of, secret_key_raw_of, spki_prefix,
};
use crate::encoding::{
    b64_standard, concat_body_lines, hex_lower, is_b64_standard_char, join_with, lemma_b64_standard_chars,
    lemma_b64_standard_len, lemma_split_append, lemma_split_no_sep, lines_of, pem_body, strip_cr,
};
use crate::paths::{path_join, state_dir_of, state_file};
use crate::text::{chars_of, push_str, starts_with, string_from_chars};

verus! {

/// The device identity stored under `~/.openclaw/identity/device.json`.
#[derive(Debug, Clone)]
pub struct DeviceIdentity {
    pub device_id: String,
    pub public_key_pem: String,
    pub private_key_pem: String,
}

impl DeviceIdentity {
    /// The PEM texts hold an Ed25519 key pair whose public half belongs to the secret half,
    /// and the device id is the fingerprint of the public key.
    pub open spec fn well_formed(&self) -> bool {
        exists|secret: Seq<u8>|
            #![trigger ed25519_public_of(secret)]
            secret_key_raw_of(self.private_key_pem@) == Some(secret) && public_key_raw_of(
                self.public_key_pem@,
            ) == Some(ed25519_public_of(secret)) && self.device_id@ == hex_lower(
                sha256_of(ed25519_public_of(secret)),
            )
    }
}

/// `s` cut into pieces of 64 characters (the last one shorter), as `chunks(64)` does.
pub open spec fn chunks64(s: Seq<char>) -> Seq<Seq<char>>
    decreases s.len(),
{
    if s.len() == 0 {
        Seq::empty()
    } else if s.len() <= 64 {
        seq![s]
    } else {
        seq![s.take(64)] + chunks64(s.skip(64))
    }
}

/// A PEM text: armor lines around the base64 of `der`, wrapped at 64 columns.
pub open spec fn pem_text(label: Seq<char>, der: Seq<u8>) -> Seq<char> {
    "-----BEGIN "@ + label + "-----\n"@ + join_with(chunks64(b64_standard(der)), "\n"@)
        + "\n-----END "@ + label + "-----\n"@
}

/// The PEM `PUBLIC KEY` text of a raw Ed25519 public key.
pub open spec fn public_key_pem_of(raw: Seq<u8>) -> Seq<char> {
    pem_text("PUBLIC KEY"@, spki_prefix() + raw)
}

/// The PEM `PRIVATE KEY` text of a raw Ed25519 secret key.
pub open spec fn private_key_pem_of(raw: Seq<u8>) -> Seq<char> {
    pem_text("PRIVATE KEY"@, pkcs8_prefix() + raw)
}

/// `~/.openclaw/identity/device.json` for the given home directory.
pub open spec fn identity_path_of(home: Option<Seq<char>>) -> Seq<char> {
    path_join(state_dir_of(home), "identity/device.json"@)
}

proof fn lemma_chunks64_len(s: Seq<char>)
    ensures
        chunks64(s).len() == (s.len() + 63) / 64,
    decreases s.len(),
{
    if s.len() > 64 {
        lemma_chunks64_len(s.skip(64));
    }
}

proof fn lemma_chunks64(s: Seq<char>, j: int)
    requires
        0 <= j < chunks64(s).len(),
    ensures
        chunks64(s).len() == (s.len() + 63) / 64,
        chunks64(s)[j] == s.subrange(64 * j, if 64 * j + 64 <= s.len() {
            64 * j + 64
        } else {
            s.len() as int
        }),
    decreases s.len(),
{
    lemma_chunks64_len(s);
    if s.len() <= 64 {
        assert(s.subrange(0, s.len() as int) =~= s);
    } else {
        if j == 0 {
            assert(s.take(64) =~= s.subrange(0, 64));
        } else {
            lemma_chunks64(s.skip(64), j - 1);
            assert(s.skip(64).subrange(64 * (j - 1), if 64 * (j - 1) + 64 <= s.len() - 64 {
                64 * (j - 1) + 64
            } else {
                s.len() - 64
            }) =~= s.subrange(64 * j, if 64 * j + 64 <= s.len() {
                64 * j + 64
            } else {
                s.len() as int
            }));
        }
    }
}

/// `label`'s PEM text of `der`: standard base64 wrapped at 64 columns between
/// `-----BEGIN label-----` and `-----END label-----`, each line ending in `\n`.
pub fn pem_encode(label: &str, der: &[u8]) -> (r: String)
    ensures
        r@ == pem_text(label@, der@),
{
    let b = base64_standard_encode(der);
    let v = chars_of(b.as_str());
    let ghost cs = chunks64(v@);
    proof {
        lemma_chunks64_len(v@);
    }
    let mut body: Vec<char> = Vec::new();
    let mut start: usize = 0;
    let mut k: usize = 0;
    while start < v.len()
        invariant
            v@ == b64_standard(der@),
            cs == chunks64(v@),
            cs.len() == (v@.len() + 63) / 64,
            start <= v.len(),
            start < v.len() ==> start == 64 * k,
            k <= cs.len(),
            start < v.len() ==> k < cs.len(),
            start >= v.len() ==> k == cs.len(),
            body@ == join_with(cs.take(k as int), "\n"@),
        decreases v.len() - start,
    {
        let end = if v.len() - start > 64 {
            start + 64
        } else {
            v.len()
        };
        proof {
            lemma_chunks64(v@, k as int);
            reveal_strlit("\n");
        }
        let ghost before = body@;
        if k > 0 {
            body.push('\n');
        }
        let mut i: usize = start;
        while i < end
            invariant
                start <= i <= end <= v.len(),
                body@ == (if k > 0 {
                    before + "\n"@
                } else {
                    before
                }) + v@.subrange(start as int, i as int),
            decreases end - i,
        {
            body.push(v[i]);
            i = i + 1;
            proof {
                assert(v@.subrange(start as int, i as int) =~= v@.subrange(
                    start as int,
                    i - 1,
                ).push(v@[i - 1]));
            }
        }
        proof {
            let t = cs.take(k + 1);
            assert(t.drop_last() =~= cs.take(k as int));
            assert(t.last() == cs[k as int]);
            if k == 0 {
                assert(before =~= Seq::<char>::empty());
                assert(body@ =~= join_with(t, "\n"@));
            } else {
                assert(body@ =~= join_with(t, "\n"@));
            }
        }
        start = end;
        k = k + 1;
    }
    proof {
        assert(cs.take(k as int) =~= cs);
    }
    let mut out: Vec<char> = Vec::new();
    push_str(&mut out, "-----BEGIN ");
    push_str(&mut out, label);
    push_str(&mut out, "-----\n");
    let ghost head = out@;
    let mut i: usize = 0;
    while i < body.len()
        invariant
            i <= body.len(),
            out@ == head + body@.take(i as int),
        decreases body.len() - i,
    {
        out.push(body[i]);
        i = i + 1;
        proof {
            assert(body@.take(i as int) =~= body@.take(i - 1).push(body@[i - 1]));
        }
    }
    proof {
        assert(body@.take(body.len() as int) =~= body@);
    }
    push_str(&mut out, "\n-----END ");
    push_str(&mut out, label);
    push_str(&mut out, "-----\n");
    proof {
        assert(out@ =~= pem_text(label@, der@));
    }
    string_from_chars(&out)
}

/// Reading back a PEM text written by `pem_encode` for a body of one line gives the
/// base64 of the DER.
proof fn lemma_pem_body_single_line(label: Seq<char>, der: Seq<u8>)
    requires
        0 < b64_standard(der).len() <= 64,
        forall|i: int| 0 <= i < label.len() ==> label[i] != '\n',
    ensures
        pem_body(pem_text(label, der)) == b64_standard(der),
{
    let body = b64_standard(der);
    lemma_b64_standard_chars(der);
    assert(chunks64(body) == seq![body]);
    assert(join_with(chunks64(body), "\n"@) == body);
    reveal_strlit("-----BEGIN ");
    reveal_strlit("-----\n");
    reveal_strlit("\n-----END ");
    reveal_strlit("-----");
    let hdr = "-----BEGIN "@ + label + "-----"@;
    let ftr = "-----END "@ + label + "-----"@;
    reveal_strlit("-----END ");
    let nl = seq!['\n'];
    assert(pem_text(label, der) =~= hdr + nl + body + nl + ftr + nl + Seq::<char>::empty());
    assert forall|i: int| 0 <= i < hdr.len() implies hdr[i] != '\n' by {
        if i >= 11 && i < 11 + label.len() {
            assert(hdr[i] == label[i - 11]);
        }
    }
    assert forall|i: int| 0 <= i < ftr.len() implies ftr[i] != '\n' by {
        if i >= 9 && i < 9 + label.len() {
            assert(ftr[i] == label[i - 9]);
        }
    }
    assert forall|i: int| 0 <= i < body.len() implies body[i] != '\n' by {
        assert(is_b64_standard_char(body[i]));
    }
    lemma_split_no_sep(hdr, '\n');
    lemma_split_append(hdr, body, '\n');
    lemma_split_append(hdr + nl + body, ftr, '\n');
    lemma_split_append(hdr + nl + body + nl + ftr, Seq::<char>::empty(), '\n');
    let p = split_char(pem_text(label, der), '\n');
    assert(p =~= seq![hdr, body, ftr, Seq::<char>::empty()]);
    assert(is_b64_standard_char(body.last()));
    assert(strip_cr(hdr) == hdr);
    assert(strip_cr(body) == body);
    assert(strip_cr(ftr) == ftr);
    let ls = lines_of(pem_text(label, der));
    assert(ls =~= seq![hdr, body, ftr]);
    assert(starts_with(hdr, "-----"@)) by {
        assert(hdr.subrange(0, 5) =~= "-----"@);
    }
    assert(starts_with(ftr, "-----"@)) by {
        assert(ftr.subrange(0, 5) =~= "-----"@);
    }
    assert(!starts_with(body, "-----"@)) by {
        assert(is_b64_standard_char(body[0]));
        if starts_with(body, "-----"@) {
            assert(body.subrange(0, 5)[0] == '-');
        }
    }
    assert(ls.drop_last() =~= seq![hdr, body]);
    assert(ls.drop_last().drop_last() =~= seq![hdr]);
    assert(seq![hdr].drop_last() =~= Seq::<Seq<char>>::empty());
    assert(seq![hdr].last() == hdr);
    assert(concat_body_lines(Seq::<Seq<char>>::empty()) =~= Seq::<char>::empty());
    assert(concat_body_lines(seq![hdr]) =~= Seq::<char>::empty());
    assert(concat_body_lines(seq![hdr, body]) =~= body);
}

/// A key's PEM text reads back to the same raw key.
proof fn lemma_key_pem_round_trip(label: Seq<char>, prefix: Seq<u8>, raw: Seq<u8>)
    requires
        raw.len() == 32,
        prefix.len() <= 16,
        forall|i: int| 0 <= i < label.len() ==> label[i] != '\n',
        crate::crypto::b64_standard_decoded(b64_standard(prefix + raw)) == Some(prefix + raw),
    ensures
        key_after_prefix(
            crate::crypto::b64_standard_decoded(pem_body(pem_text(label, prefix + raw))),
            prefix,
        ) == Some(raw),
{
    let der = prefix + raw;
    lemma_b64_standard_len(der);
    lemma_pem_body_single_line(label, der);
    assert(der.subrange(0, prefix.len() as int) =~= prefix);
    assert(der.subrange(prefix.len() as int, der.len() as int) =~= raw);
}

fn key_pem(label: &str, prefix: &[u8], raw: &[u8]) -> (r: String)
    requires
        raw@.len() == 32,
        prefix@ == spki_prefix() || prefix@ == pkcs8_prefix(),
        label@ == "PUBLIC KEY"@ || label@ == "PRIVATE KEY"@,
    ensures
        r@ == pem_text(label@, prefix@ + raw@),
        key_after_prefix(crate::crypto::b64_standard_decoded(pem_body(r@)), prefix@) == Some(
            raw@,
        ),
{
    let mut der: Vec<u8> = Vec::new();
    let mut i: usize = 0;
    while i < prefix.len()
        invariant
            i <= prefix.len(),
            der@ == prefix@.take(i as int),
        decreases prefix.len() - i,
    {
        der.push(prefix[i]);
        i = i + 1;
        proof {
            assert(prefix@.take(i as int) =~= prefix@.take(i - 1).push(prefix@[i - 1]));
        }
    }
    let mut j: usize = 0;
    while j < raw.len()
        invariant
            j <= raw.len(),
            der@ == prefix@ + raw@.take(j as int),
        decreases raw.len() - j,
    {
        der.push(raw[j]);
        j = j + 1;
        proof {
            assert(raw@.take(j as int) =~= raw@.take(j - 1).push(raw@[j - 1]));
        }
    }
    proof {
        assert(prefix@.take(prefix@.len() as int) =~= prefix@);
        assert(raw@.take(32) =~= raw@);
        assert(der@ =~= prefix@ + raw@);
    }
    let encoded = base64_standard_encode(der.as_slice());
    let r = pem_encode(label, der.as_slice());
    proof {
        reveal_strlit("PUBLIC KEY");
        reveal_strlit("PRIVATE KEY");
        assert(forall|i: int| 0 <= i < label@.len() ==> label@[i] != '\n');
        lemma_key_pem_round_trip(label@, prefix@, raw@);
    }
    r
}

/// The PEM `PUBLIC KEY` text (SubjectPublicKeyInfo) of a raw Ed25519 public key; it reads
/// back to the same key.
pub fn public_key_pem_from_raw(raw: &[u8]) -> (r: String)
    requires
        raw@.len() == 32,
    ensures
        r@ == public_key_pem_of(raw@),
        public_key_raw_of(r@) == Some(raw@),
{
    let prefix: [u8; 12] = [0x30u8, 0x2a, 0x30, 0x05, 0x06, 0x03, 0x2b, 0x65, 0x70, 0x03, 0x21, 0x00];
    assert(prefix@ =~= spki_prefix());
    key_pem("PUBLIC KEY", prefix.as_slice(), raw)
}

/// The PEM `PRIVATE KEY` text (PKCS#8) of a raw Ed25519 secret key; it reads back to the
/// same key.
pub fn private_key_pem_from_raw(raw: &[u8]) -> (r: String)
    requires
        raw@.len() == 32,
    ensures
        r@ == private_key_pem_of(raw@),
        secret_key_raw_of(r@) == Some(raw@),
{
    let prefix: [u8; 16] = [
        0x30u8, 0x2e, 0x02, 0x01, 0x00, 0x30, 0x05, 0x06, 0x03, 0x2b, 0x65, 0x70, 0x04, 0x22,
        0x04, 0x20,
    ];
    assert(prefix@ =~= pkcs8_prefix());
    key_pem("PRIVATE KEY", prefix.as_slice(), raw)
}

/// The device id of a raw public key: lowercase hex of its SHA-256 digest (64 characters).
pub fn fingerprint_public_key_raw(raw: &[u8]) -> (r: String)
    ensures
        r@ == hex_lower(sha256_of(raw@)),
        r@.len() == 64,
{
    let digest = sha256_digest(raw);
    let r = hex_encode(digest.as_slice());
    proof {
        lemma_hex_len(digest@);
    }
    r
}

proof fn lemma_hex_len(d: Seq<u8>)
    ensures
        hex_lower(d).len() == 2 * d.len(),
    decreases d.len(),
{
    if d.len() > 0 {
        lemma_hex_len(d.drop_last());
    }
}

/// A fresh identity from a random Ed25519 key pair.
pub fn generate_identity() -> (r: DeviceIdentity)
    ensures
        r.well_formed(),
        r.device_id@.len() == 64,
        exists|secret: Seq<u8>|
            secret.len() == 32 && r.private_key_pem@ == private_key_pem_of(secret)
                && #[trigger] public_key_pem_of(ed25519_public_of(secret)) == r.public_key_pem@,
{
    let secret = generate_secret_key();
    let public = ed25519_public_key(secret.as_slice());
    let r = DeviceIdentity {
        device_id: fingerprint_public_key_raw(public.as_slice()),
        public_key_pem: public_key_pem_from_raw(public.as_slice()),
        private_key_pem: private_key_pem_from_raw(secret.as_slice()),
    };
    assert(secret_key_raw_of(r.private_key_pem@) == Some(secret@));
    assert(ed25519_public_of(secret@) == public@);
    assert(public_key_raw_of(r.public_key_pem@) == Some(ed25519_public_of(secret@)));
    assert(r.device_id@ == hex_lower(sha256_of(ed25519_public_of(secret@))));
    assert(public_key_pem_of(ed25519_public_of(secret@)) == r.public_key_pem@);
    r
}

/// A lowercase hex digit.
pub open spec fn is_lower_hex_digit(c: char) -> bool {
    ('0' <= c && c <= '9') || ('a' <= c && c <= 'f')
}

proof fn lemma_hex_lower_digits(d: Seq<u8>)
    ensures
        forall|i: int| 0 <= i < hex_lower(d).len() ==> is_lower_hex_digit(#[trigger] hex_lower(d)[i]),
    decreases d.len(),
{
    if d.len() > 0 {
        lemma_hex_lower_digits(d.drop_last());
        let p = hex_lower(d.drop_last());
        let x = d.last() as int;
        assert(hex_lower(d) == p + seq![crate::encoding::hex_digit(x / 16), crate::encoding::hex_digit(x % 16)]);
        assert forall|i: int| 0 <= i < hex_lower(d).len() implies is_lower_hex_digit(
            #[trigger] hex_lower(d)[i],
        ) by {
            if i < p.len() {
                assert(hex_lower(d)[i] == p[i]);
            }
        }
    }
}

/// The device id of a well-formed identity is the fingerprint of its public key: the
/// lowercase hex SHA-256 of the raw key the public PEM holds, so `fingerprint_pem` of
/// the public PEM gives the id back.
pub proof fn law_identity_id_is_key_fingerprint(id: DeviceIdentity)
    requires
        id.well_formed(),
    ensures
        public_key_raw_of(id.public_key_pem@) matches Some(raw) && id.device_id@ == hex_lower(
            sha256_of(raw),
        ),
        forall|i: int| 0 <= i < id.device_id@.len() ==> is_lower_hex_digit(#[trigger] id.device_id@[i]),
{
    let secret = choose|secret: Seq<u8>|
        #![trigger ed25519_public_of(secret)]
        secret_key_raw_of(id.private_key_pem@) == Some(secret) && public_key_raw_of(
            id.public_key_pem@,
        ) == Some(ed25519_public_of(secret)) && id.device_id@ == hex_lower(
            sha256_of(ed25519_public_of(secret)),
        );
    lemma_hex_lower_digits(sha256_of(ed25519_public_of(secret)));
}

/// `~/.openclaw/identity/device.json`.
pub fn identity_path() -> (r: String)
    ensures
        exists|h: Option<Seq<char>>| r@ == identity_path_of(h),
{
    let r = state_file("identity/device.json");
    proof {
        let h = choose|h: Option<Seq<char>>| r@ == path_join(state_dir_of(h), "identity/device.json"@);
        assert(r@ == identity_path_of(h));
    }
    r
}

/// The identity to use: the stored one when it could be read, else a fresh one, which
/// then has to be saved (the flag).
pub fn load_or_create_device_identity(stored: Option<DeviceIdentity>) -> (r: (DeviceIdentity, bool))
    ensures
        stored matches Some(s) ==> r.0 == s && !r.1,
        stored is None ==> r.0.well_formed() && r.0.device_id@.len() == 64 && r.1,
{
    match stored {
        Some(s) => (s, false),
        None => (generate_identity(), true),
    }
}

/// A PEM text opens with `-----BEGIN <label>-----` and closes with
/// `-----END <label>-----`; so a generated identity's public PEM is labelled
/// `PUBLIC KEY` and its private PEM `PRIVATE KEY` (see `generate_identity`).
pub proof fn law_pem_text_labels(label: Seq<char>, der: Seq<u8>)
    ensures
        pem_text(label, der).subrange(0, (11 + label.len() + 6) as int) == "-----BEGIN "@ + label + "-----\n"@,
        pem_text(label, der).subrange(
            pem_text(label, der).len() - (10 + label.len() + 6),
            pem_text(label, der).len() as int,
        ) == "\n-----END "@ + label + "-----\n"@,
{
    let head = "-----BEGIN "@ + label + "-----\n"@;
    let body = join_with(chunks64(b64_standard(der)), "\n"@);
    let tail = "\n-----END "@ + label + "-----\n"@;
    reveal_strlit("-----BEGIN ");
    reveal_strlit("-----\n");
    reveal_strlit("\n-----END ");
    assert(pem_text(label, der) =~= head + body + tail);
    assert(head.len() == 11 + label.len() + 6);
    assert(tail.len() == 10 + label.len() + 6);
    assert((head + body + tail).subrange(0, head.len() as int) =~= head);
    assert((head + body + tail).subrange(
        (head + body + tail).len() - tail.len(),
        (head + body + tail).len() as int,
    ) =~= tail);
}

} // verus!
