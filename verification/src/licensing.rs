//! Offline licences: the signed token envelope, the checks on its payload, the
//! clock rules that guard against a moved-back system clock, and the status a
//! stored licence reports.
//!
//! Instants are counted in nanoseconds since the Unix epoch (UTC).
use vstd::prelude::*;
use vstd::string::StringSliceAdditionalSpecFns;

use base64::engine::general_purpose::URL_SAFE_NO_PAD;
use base64::Engine;
use chrono::DateTime;
use rsa::pkcs8::DecodePublicKey;
use rsa::pss::{Signature, VerifyingKey};
use rsa::signature::Verifier;
use rsa::RsaPublicKey;
use sha2::{Digest, Sha256};

use crate::error::AppError;
use crate::text::{
    join_path, joined_path,
    utf8_byte_len, utf8_len,
    chars_of, eq_ignore_ascii_case, is_blank, owned, push_char, str_eq_ignore_ascii_case,
    str_is_blank, string_of_range, trim, trim_str,
};

verus! {

// ---------------------------------------------------------------------------
// Outside computations
// ---------------------------------------------------------------------------

/// Bytes that the URL-safe, unpadded base64 alphabet decodes `text` to, or
/// `None` where `text` is not such an encoding.
pub uninterp spec fn base64_url_decoded(text: Seq<char>) -> Option<Seq<u8>>;

/// Whether `pem` holds an SPKI public RSA key in PEM form.
pub uninterp spec fn public_key_pem_parses(pem: Seq<char>) -> bool;

/// Whether `signature` is an RSASSA-PSS signature, with SHA-256 and a salt as
/// long as the digest, of `message` under the key that `pem` holds.
pub uninterp spec fn pss_sha256_accepts(pem: Seq<char>, message: Seq<u8>, signature: Seq<u8>) -> bool;

/// The SHA-256 digest of `bytes`.
pub uninterp spec fn sha256_digest(bytes: Seq<u8>) -> Seq<u8>;

/// Seconds since the epoch and the sub-second nanoseconds of the instant that
/// an RFC 3339 date-time text denotes, or `None` where it is not one.
pub uninterp spec fn rfc3339_instant(text: Seq<char>) -> Option<(i64, u32)>;

/// `URL_SAFE_NO_PAD.decode` of base64: the decoded bytes, or `None` on a
/// decoding error. The result is named, not described.
#[verifier::external_body]
fn decode_base64_url(text: &str) -> (r: Option<Vec<u8>>)
    ensures
        match r {
            Some(v) => base64_url_decoded(text@) == Some(v@),
            None => base64_url_decoded(text@) is None,
        },
{
    URL_SAFE_NO_PAD.decode(text).ok()
}

/// Checks an RSASSA-PSS/SHA-256 signature with rsa: the PEM text is read by
/// `RsaPublicKey::from_public_key_pem` (`None` when that fails), the signature
/// bytes become a `pss::Signature` (a conversion that cannot fail), and
/// `VerifyingKey::<Sha256>::verify` decides. Whether it accepts is named, not
/// described.
#[verifier::external_body]
fn verify_pss_sha256(public_key_pem: &str, message: &[u8], signature: &[u8]) -> (r: Option<bool>)
    ensures
        r is Some <==> public_key_pem_parses(public_key_pem@),
        r matches Some(ok) ==> ok == pss_sha256_accepts(public_key_pem@, message@, signature@),
{
    let key = RsaPublicKey::from_public_key_pem(public_key_pem).ok()?;
    let signature = Signature::try_from(signature).ok()?;
    Some(VerifyingKey::<Sha256>::new(key).verify(message, &signature).is_ok())
}

/// `Sha256::digest` of sha2: the 32-byte digest of `bytes`.
#[verifier::external_body]
fn sha256(bytes: &[u8]) -> (r: Vec<u8>)
    ensures
        r@ == sha256_digest(bytes@),
        r@.len() == 32,
{
    Sha256::digest(bytes).to_vec()
}

/// `DateTime::parse_from_rfc3339` of chrono, read back as `timestamp()` and
/// `timestamp_subsec_nanos()`; `None` on a parse error.
#[verifier::external_body]
fn parse_rfc3339(text: &str) -> (r: Option<(i64, u32)>)
    ensures
        r == rfc3339_instant(text@),
{
    DateTime::parse_from_rfc3339(text).ok().map(|t| (t.timestamp(), t.timestamp_subsec_nanos()))
}

// ---------------------------------------------------------------------------
// Instants and the clock rules
// ---------------------------------------------------------------------------

pub open spec fn nanos_per_second() -> int {
    1_000_000_000
}

/// The instant `secs` seconds and `nanos` nanoseconds after the epoch.
pub open spec fn instant_of(secs: int, nanos: int) -> int {
    secs * nanos_per_second() + nanos
}

/// Every instant made from seconds and nanoseconds that fit their types lies
/// within these bounds, far inside the range of `i128`.
pub open spec fn instant_in_range(t: int) -> bool {
    -10_000_000_000_000_000_000_000_000_000 <= t <= 10_000_000_000_000_000_000_000_000_000
}

/// A clock may run this much behind an earlier reading: five minutes.
pub open spec fn clock_tolerance() -> int {
    300 * nanos_per_second()
}

/// The clock record is refreshed once it is this old: thirty seconds.
pub open spec fn clock_write_interval() -> int {
    30 * nanos_per_second()
}

/// A licence re-entered after the clock record was lost must be younger than
/// this: twenty-four hours.
pub open spec fn recovery_max_age() -> int {
    86_400 * nanos_per_second()
}

/// The instant `secs` seconds and `nanos` nanoseconds after the epoch, in
/// nanoseconds. A leap second (nanoseconds of a billion or more, which chrono
/// keeps inside the second before) counts into the following second here.
pub fn instant(secs: i64, nanos: u32) -> (r: i128)
    ensures
        r == instant_of(secs as int, nanos as int),
        instant_in_range(r as int),
{
    secs as i128 * 1_000_000_000i128 + nanos as i128
}

/// Whether `now` lies more than the tolerance before `last_seen`: the clock
/// was moved back.
pub fn clock_rolled_back(now: i128, last_seen: i128) -> (r: bool)
    requires
        instant_in_range(now as int),
    ensures
        r == (now + clock_tolerance() < last_seen),
{
    now + 300_000_000_000i128 < last_seen
}

/// Whether the clock record read at `last_seen` is due to be rewritten.
pub fn clock_refresh_due(now: i128, last_seen: i128) -> (r: bool)
    requires
        instant_in_range(now as int),
        instant_in_range(last_seen as int),
    ensures
        r == (now - last_seen >= clock_write_interval()),
{
    now - last_seen >= 30_000_000_000i128
}

/// After the clock record was lost, re-entering the very same key, or a
/// licence issued more than a day ago, cannot restore the licence.
pub fn recovery_requires_new_license(same_key: bool, issue: i128, now: i128) -> (r: bool)
    requires
        instant_in_range(now as int),
    ensures
        r == (same_key || issue < now - recovery_max_age()),
{
    same_key || issue < now - 86_400_000_000_000i128
}


// ---------------------------------------------------------------------------
// The token envelope
// ---------------------------------------------------------------------------

/// The first field of every licence token.
pub open spec fn token_head() -> Seq<char> {
    "FSLIC1"@
}

pub open spec fn no_dot(s: Seq<char>) -> bool {
    forall|k: int| 0 <= k < s.len() ==> s[k] != '.'
}

/// `a` and `b` joined by a dot.
pub open spec fn dotted(a: Seq<char>, b: Seq<char>) -> Seq<char> {
    a + seq!['.'] + b
}

/// A token is the head, the encoded payload and the encoded signature, joined
/// by dots; neither encoded part holds a dot.
pub open spec fn sealed_as(token: Seq<char>, payload: Seq<char>, signature: Seq<char>) -> bool {
    &&& no_dot(payload)
    &&& no_dot(signature)
    &&& token == dotted(dotted(token_head(), payload), signature)
}

/// The head and one dot-free part: the signature is missing.
pub open spec fn unsigned(token: Seq<char>) -> bool {
    exists|payload: Seq<char>| no_dot(payload) && token == dotted(token_head(), payload)
}

pub open spec fn well_sealed(token: Seq<char>) -> bool {
    exists|payload: Seq<char>, signature: Seq<char>| sealed_as(token, payload, signature)
}

/// Why a token's envelope was refused.
#[derive(Debug, Clone, Copy, PartialEq, Eq, Structural)]
pub enum EnvelopeFault {
    /// The first field is not the head, or there are more than three fields.
    Unsupported,
    /// The token is the head alone.
    PayloadMissing,
    /// The token is the head and one more field.
    SignatureMissing,
}

/// The two dots of a sealed token sit right after the head and right after
/// the payload, so the parts are determined by the token.
proof fn lemma_sealed_unique(token: Seq<char>, p1: Seq<char>, g1: Seq<char>, p2: Seq<char>, g2: Seq<char>)
    requires
        sealed_as(token, p1, g1),
        sealed_as(token, p2, g2),
    ensures
        p1 == p2,
        g1 == g2,
{
    reveal_strlit("FSLIC1");
    if p1.len() < p2.len() {
        assert(token[7 + p1.len() as int] == '.');
        assert(token[7 + p1.len() as int] == p2[p1.len() as int]);
    } else if p2.len() < p1.len() {
        assert(token[7 + p2.len() as int] == '.');
        assert(token[7 + p2.len() as int] == p1[p2.len() as int]);
    }
    assert(p1 =~= p2) by {
        assert forall|k: int| 0 <= k < p1.len() implies p1[k] == p2[k] by {
            assert(token[7 + k] == p1[k]);
            assert(token[7 + k] == p2[k]);
        }
    }
    assert(token.len() == 8 + p1.len() + g1.len());
    assert(token.len() == 8 + p2.len() + g2.len());
    assert(g1 =~= g2) by {
        assert forall|k: int| 0 <= k < g1.len() implies g1[k] == g2[k] by {
            assert(token[8 + p1.len() as int + k] == g1[k]);
            assert(token[8 + p1.len() as int + k] == g2[k]);
        }
    }
}

/// The encoded payload and signature of a sealed token.
pub open spec fn sealed_parts(token: Seq<char>) -> (Seq<char>, Seq<char>) {
    choose|pg: (Seq<char>, Seq<char>)| sealed_as(token, pg.0, pg.1)
}

proof fn lemma_sealed_parts(token: Seq<char>, p: Seq<char>, g: Seq<char>)
    requires
        sealed_as(token, p, g),
    ensures
        sealed_parts(token) == (p, g),
{
    let pg = (p, g);
    assert(sealed_as(token, pg.0, pg.1));
    let q = sealed_parts(token);
    lemma_sealed_unique(token, p, g, q.0, q.1);
}

/// Splits a token on its dots: `head.payload.signature` gives the two encoded
/// parts; the head alone, the head and one part, and anything else are
/// refused, each with its own fault.
pub fn split_envelope(token: &str) -> (r: Result<(String, String), EnvelopeFault>)
    ensures
        r matches Ok((p, g)) ==> sealed_as(token@, p@, g@),
        well_sealed(token@) ==> r is Ok,
        (r == Err::<(String, String), EnvelopeFault>(EnvelopeFault::PayloadMissing)) <==> token@
            == token_head(),
        (r == Err::<(String, String), EnvelopeFault>(EnvelopeFault::SignatureMissing)) <==> unsigned(
            token@,
        ),
{
    let v = chars_of(token);
    let n = v.len();
    proof {
        reveal_strlit("FSLIC1");
    }
    let ghost t = token@;
    if n < 6 || v[0] != 'F' || v[1] != 'S' || v[2] != 'L' || v[3] != 'I' || v[4] != 'C' || v[5]
        != '1' {
        proof {
            assert(t != token_head());
            assert forall|p: Seq<char>| #![auto] no_dot(p) implies t != dotted(token_head(), p) by {
                if t == dotted(token_head(), p) {
                    assert(t[0] == 'F' && t[1] == 'S' && t[2] == 'L' && t[3] == 'I' && t[4] == 'C'
                        && t[5] == '1');
                }
            }
            assert forall|p: Seq<char>, g: Seq<char>| !sealed_as(t, p, g) by {
                if sealed_as(t, p, g) {
                    assert(t[0] == 'F' && t[1] == 'S' && t[2] == 'L' && t[3] == 'I' && t[4] == 'C'
                        && t[5] == '1');
                }
            }
        }
        return Err(EnvelopeFault::Unsupported);
    }
    if n == 6 {
        assert(t =~= token_head());
        proof {
            assert forall|p: Seq<char>| #![auto] no_dot(p) implies t != dotted(token_head(), p) by {}
            assert forall|p: Seq<char>, g: Seq<char>| !sealed_as(t, p, g) by {}
        }
        return Err(EnvelopeFault::PayloadMissing);
    }
    if v[6] != '.' {
        proof {
            assert forall|p: Seq<char>| #![auto] no_dot(p) implies t != dotted(token_head(), p) by {
                if t == dotted(token_head(), p) {
                    assert(t[6] == '.');
                }
            }
            assert forall|p: Seq<char>, g: Seq<char>| !sealed_as(t, p, g) by {
                if sealed_as(t, p, g) {
                    assert(t[6] == '.');
                }
            }
        }
        return Err(EnvelopeFault::Unsupported);
    }
    // The payload runs from 7 to the next dot.
    let mut j: usize = 7;
    while j < n && v[j] != '.'
        invariant
            7 <= j <= n,
            n == v@.len(),
            v@ == t,
            forall|k: int| 7 <= k < j ==> t[k] != '.',
        decreases n - j,
    {
        j += 1;
    }
    if j == n {
        let ghost p = t.subrange(7, n as int);
        proof {
            assert(t =~= dotted(token_head(), p));
            assert(no_dot(p)) by {
                assert forall|k: int| 0 <= k < p.len() implies p[k] != '.' by {
                    assert(p[k] == t[7 + k]);
                }
            }
            assert forall|q: Seq<char>, g: Seq<char>| !sealed_as(t, q, g) by {
                if sealed_as(t, q, g) {
                    assert(t[7 + q.len() as int] == '.');
                }
            }
        }
        return Err(EnvelopeFault::SignatureMissing);
    }
    // Nothing after the second dot may be a dot.
    let mut k: usize = j + 1;
    while k < n && v[k] != '.'
        invariant
            7 <= j < k <= n,
            n == v@.len(),
            v@ == t,
            t[j as int] == '.',
            forall|i: int| 7 <= i < j ==> t[i] != '.',
            forall|i: int| j < i < k ==> t[i] != '.',
        decreases n - k,
    {
        k += 1;
    }
    if k < n {
        proof {
            assert(t != token_head());
            assert forall|p: Seq<char>| #![auto] no_dot(p) implies t != dotted(token_head(), p) by {
                if t == dotted(token_head(), p) {
                    assert(t[j as int] == p[j - 7]);
                }
            }
            assert forall|p: Seq<char>, g: Seq<char>| !sealed_as(t, p, g) by {
                if sealed_as(t, p, g) {
                    let d = 7 + p.len();
                    if (j as int) < d {
                        assert(t[j as int] == p[j - 7]);
                    } else if (j as int) > d {
                        assert(t[j as int] == g[j - d - 1]);
                    } else {
                        assert(t[k as int] == g[k - d - 1]);
                    }
                }
            }
        }
        return Err(EnvelopeFault::Unsupported);
    }
    let p = string_of_range(&v, 7, j);
    let g = string_of_range(&v, j + 1, n);
    proof {
        assert(t =~= dotted(dotted(token_head(), p@), g@));
        assert(no_dot(p@)) by {
            assert forall|i: int| 0 <= i < p@.len() implies p@[i] != '.' by {
                assert(p@[i] == t[7 + i]);
            }
        }
        assert(no_dot(g@)) by {
            assert forall|i: int| 0 <= i < g@.len() implies g@[i] != '.' by {
                assert(g@[i] == t[j + 1 + i]);
            }
        }
        assert(t != token_head());
        assert forall|q: Seq<char>| #![auto] no_dot(q) implies t != dotted(token_head(), q) by {
            if t == dotted(token_head(), q) {
                assert(t[j as int] == q[j - 7]);
            }
        }
    }
    Ok((p, g))
}


/// Why a token was not accepted.
#[derive(Debug)]
pub enum VerifyFailure {
    /// The licence was issued for another computer.
    HardwareMismatch,
    /// The token or its data is malformed; the message says how.
    Invalid(String),
    /// The signature does not hold.
    Tampered,
}

pub open spec fn invalid_because(e: VerifyFailure, message: Seq<char>) -> bool {
    e matches VerifyFailure::Invalid(m) && m@ == message
}

fn invalid(message: &str) -> (e: VerifyFailure)
    ensures
        invalid_because(e, message@),
{
    VerifyFailure::Invalid(owned(message))
}

/// What opening the encoded parts `payload` and `signature` of a sealed token
/// gives under the key in `pem`: both must decode, the key must parse, and the
/// signature must hold over the payload bytes, which are then handed back.
pub open spec fn opened_as(
    r: Result<Vec<u8>, VerifyFailure>,
    pem: Seq<char>,
    payload: Seq<char>,
    signature: Seq<char>,
) -> bool {
    match base64_url_decoded(payload) {
        None => r matches Err(e) && invalid_because(e, "License payload encoding is invalid."@),
        Some(payload_bytes) => match base64_url_decoded(signature) {
            None => r matches Err(e) && invalid_because(
                e,
                "License signature encoding is invalid."@,
            ),
            Some(signature_bytes) => if !public_key_pem_parses(pem) {
                r matches Err(e) && invalid_because(e, "Application verification key is invalid."@)
            } else if !pss_sha256_accepts(pem, payload_bytes, signature_bytes) {
                r matches Err(VerifyFailure::Tampered)
            } else {
                r matches Ok(v) && v@ == payload_bytes
            },
        },
    }
}

/// Opens a token: checks its envelope, decodes both parts and checks the
/// signature with the public key in `public_key_pem`. On success the signed
/// payload bytes come back, still to be read as licence data.
pub fn open_token(token: &str, public_key_pem: &str) -> (r: Result<Vec<u8>, VerifyFailure>)
    ensures
        token@ == token_head() ==> (r matches Err(e) && invalid_because(
            e,
            "License payload is missing."@,
        )),
        unsigned(token@) ==> (r matches Err(e) && invalid_because(
            e,
            "License signature is missing."@,
        )),
        (!well_sealed(token@) && token@ != token_head() && !unsigned(token@)) ==> (r matches Err(e)
            && invalid_because(e, "License format is not supported."@)),
        well_sealed(token@) ==> opened_as(
            r,
            public_key_pem@,
            sealed_parts(token@).0,
            sealed_parts(token@).1,
        ),
{
    let (payload_part, signature_part) = match split_envelope(token) {
        Ok(parts) => parts,
        Err(EnvelopeFault::PayloadMissing) => {
            return Err(invalid("License payload is missing."));
        },
        Err(EnvelopeFault::SignatureMissing) => {
            return Err(invalid("License signature is missing."));
        },
        Err(EnvelopeFault::Unsupported) => {
            return Err(invalid("License format is not supported."));
        },
    };
    proof {
        lemma_sealed_parts(token@, payload_part@, signature_part@);
        reveal_strlit("FSLIC1");
        assert(token@ != token_head());
    }
    let payload_bytes = match decode_base64_url(payload_part.as_str()) {
        Some(b) => b,
        None => {
            return Err(invalid("License payload encoding is invalid."));
        },
    };
    let signature_bytes = match decode_base64_url(signature_part.as_str()) {
        Some(b) => b,
        None => {
            return Err(invalid("License signature encoding is invalid."));
        },
    };
    match verify_pss_sha256(public_key_pem, payload_bytes.as_slice(), signature_bytes.as_slice()) {
        None => Err(invalid("Application verification key is invalid.")),
        Some(false) => Err(VerifyFailure::Tampered),
        Some(true) => Ok(payload_bytes),
    }
}


// ---------------------------------------------------------------------------
// The signed payload
// ---------------------------------------------------------------------------

/// What a licence grants, as signed by the issuer.
#[derive(Debug)]
pub struct LicensePayload {
    pub version: u32,
    pub license_id: String,
    pub customer: String,
    pub hardware_id: String,
    pub issue_date: String,
    pub expiry_date: String,
    pub granted_days: u32,
}

/// A licence whose signature, fields and dates were checked.
#[derive(Debug)]
pub struct VerifiedLicense {
    pub payload: LicensePayload,
    /// Issue and expiry instants, in nanoseconds since the epoch.
    pub issue: i128,
    pub expiry: i128,
    /// Lower-case hex SHA-256 of the token's text.
    pub token_digest: String,
    /// The key as shown to the user: a fixed mask and its last eight characters.
    pub masked_key: String,
}

/// Version 1, a licence id and a customer that are not blank, and at least one
/// granted day.
pub open spec fn payload_fields_ok(p: LicensePayload) -> bool {
    &&& p.version == 1
    &&& !is_blank(p.license_id@)
    &&& !is_blank(p.customer@)
    &&& p.granted_days != 0
}

pub open spec fn hex_digit(n: u8) -> char {
    if n < 10 {
        (48 + n) as u8 as char
    } else {
        (87 + n) as u8 as char
    }
}

/// Each byte as two lower-case hex digits, high nibble first.
pub open spec fn hex_of(bytes: Seq<u8>) -> Seq<char>
    decreases bytes.len(),
{
    if bytes.len() == 0 {
        Seq::empty()
    } else {
        let b = bytes.last();
        hex_of(bytes.drop_last()) + seq![hex_digit(b / 16), hex_digit(b % 16)]
    }
}

/// The last eight characters of `s`, or all of it when it is shorter.
pub open spec fn last_eight(s: Seq<char>) -> Seq<char> {
    if s.len() <= 8 {
        s
    } else {
        s.subrange(s.len() - 8, s.len() as int)
    }
}

pub open spec fn key_mask() -> Seq<char> {
    "FSLIC1-••••-••••-"@
}

fn hex_char(n: u8) -> (c: char)
    requires
        n < 16,
    ensures
        c == hex_digit(n),
{
    if n < 10 {
        (48 + n) as char
    } else {
        (87 + n) as char
    }
}

/// Lower-case hex text of `bytes`.
pub fn hex_lower(bytes: &Vec<u8>) -> (r: String)
    ensures
        r@ == hex_of(bytes@),
{
    let mut r = String::new();
    let mut i: usize = 0;
    while i < bytes.len()
        invariant
            i <= bytes.len(),
            r@ == hex_of(bytes@.take(i as int)),
        decreases bytes.len() - i,
    {
        let b = bytes[i];
        push_char(&mut r, hex_char(b / 16));
        push_char(&mut r, hex_char(b % 16));
        proof {
            let t = bytes@.take(i + 1);
            assert(t.drop_last() =~= bytes@.take(i as int));
            assert(t.last() == b);
        }
        i += 1;
    }
    assert(bytes@.take(bytes@.len() as int) =~= bytes@);
    r
}

/// The key as shown to the user.
pub fn masked_key(token: &str) -> (r: String)
    ensures
        r@ == key_mask() + last_eight(token@),
{
    let v = chars_of(token);
    let lo: usize = if v.len() <= 8 { 0 } else { v.len() - 8 };
    let mut r = owned("FSLIC1-••••-••••-");
    let mut i = lo;
    while i < v.len()
        invariant
            lo <= i <= v.len(),
            v@ == token@,
            lo == (if v.len() <= 8 { 0 } else { v.len() - 8 }),
            r@ == key_mask() + v@.subrange(lo as int, i as int),
        decreases v.len() - i,
    {
        push_char(&mut r, v[i]);
        assert(v@.subrange(lo as int, i + 1) =~= v@.subrange(lo as int, i as int).push(v@[i as int]));
        i += 1;
    }
    assert(v@.subrange(0, v@.len() as int) =~= v@);
    r
}

/// The instant that an RFC 3339 text denotes, in nanoseconds, if it denotes one.
pub open spec fn rfc3339_nanos(text: Seq<char>) -> Option<int> {
    match rfc3339_instant(text) {
        Some((secs, nanos)) => Some(instant_of(secs as int, nanos as int)),
        None => None,
    }
}

fn parse_instant(text: &str) -> (r: Option<i128>)
    ensures
        match rfc3339_nanos(text@) {
            Some(t) => r == Some(t as i128) && instant_in_range(t),
            None => r is None,
        },
{
    match parse_rfc3339(text) {
        Some((secs, nanos)) => Some(instant(secs, nanos)),
        None => None,
    }
}

/// What accepting `payload`, read from the signed bytes of `token`, gives for
/// a computer whose hardware id is `hardware`.
pub open spec fn accepted_as(
    r: Result<VerifiedLicense, VerifyFailure>,
    token: &str,
    payload: Option<LicensePayload>,
    hardware: Seq<char>,
) -> bool {
    match payload {
        None => r matches Err(e) && invalid_because(e, "Signed license data is invalid."@),
        Some(p) => if !payload_fields_ok(p) {
            r matches Err(e) && invalid_because(e, "Signed license fields are invalid."@)
        } else if !eq_ignore_ascii_case(p.hardware_id@, hardware) {
            r matches Err(VerifyFailure::HardwareMismatch)
        } else {
            match (rfc3339_nanos(p.issue_date@), rfc3339_nanos(p.expiry_date@)) {
                (None, _) => r matches Err(e) && invalid_because(
                    e,
                    "license issue date is invalid"@,
                ),
                (Some(_), None) => r matches Err(e) && invalid_because(
                    e,
                    "license expiry date is invalid"@,
                ),
                (Some(issue), Some(expiry)) => if expiry <= issue {
                    r matches Err(e) && invalid_because(
                        e,
                        "License expiry must be after its issue date."@,
                    )
                } else {
                    r matches Ok(v) && v.payload == p && v.issue == issue && v.expiry == expiry
                        && instant_in_range(issue) && instant_in_range(expiry)
                        && v.token_digest@ == hex_of(sha256_digest(token.spec_bytes()))
                        && v.masked_key@ == key_mask() + last_eight(token@)
                },
            }
        },
    }
}

/// Checks the licence data read from a token's signed payload (`None` where
/// the bytes were not licence data): its fields, that it was issued for this
/// computer (hardware ids compared ignoring ASCII case) and that its dates
/// parse and expiry comes after issue.
pub fn accept_payload(token: &str, payload: Option<LicensePayload>, expected_hardware_id: &str)
    -> (r: Result<VerifiedLicense, VerifyFailure>)
    ensures
        accepted_as(r, token, payload, expected_hardware_id@),
{
    let payload = match payload {
        Some(p) => p,
        None => {
            return Err(invalid("Signed license data is invalid."));
        },
    };
    if payload.version != 1 || str_is_blank(payload.license_id.as_str()) || str_is_blank(
        payload.customer.as_str(),
    ) || payload.granted_days == 0 {
        return Err(invalid("Signed license fields are invalid."));
    }
    if !str_eq_ignore_ascii_case(payload.hardware_id.as_str(), expected_hardware_id) {
        return Err(VerifyFailure::HardwareMismatch);
    }
    let issue = match parse_instant(payload.issue_date.as_str()) {
        Some(t) => t,
        None => {
            return Err(invalid("license issue date is invalid"));
        },
    };
    let expiry = match parse_instant(payload.expiry_date.as_str()) {
        Some(t) => t,
        None => {
            return Err(invalid("license expiry date is invalid"));
        },
    };
    if expiry <= issue {
        return Err(invalid("License expiry must be after its issue date."));
    }
    let digest = sha256(token.as_bytes());
    let token_digest = hex_lower(&digest);
    let masked_key = masked_key(token);
    Ok(VerifiedLicense { payload, issue, expiry, token_digest, masked_key })
}


// ---------------------------------------------------------------------------
// Date rules
// ---------------------------------------------------------------------------

/// Why a licence's dates refuse it at `now`: issued in the future (beyond the
/// tolerance), or expired.
pub open spec fn dates_fault(issue: int, expiry: int, now: int) -> Option<Seq<char>> {
    if now + clock_tolerance() < issue {
        Some("The license issue date is in the future. Check the Windows date and time."@)
    } else if now > expiry {
        Some("The license has expired. Enter a renewed license to continue."@)
    } else {
        None
    }
}

pub open spec fn licence_in_range(license: VerifiedLicense) -> bool {
    instant_in_range(license.issue as int) && instant_in_range(license.expiry as int)
}

/// Checks a licence's dates against the clock: refused, as a licence error,
/// when issued beyond the tolerance in the future or when expired.
pub fn validate_dates(license: &VerifiedLicense, now: i128) -> (r: Result<(), AppError>)
    requires
        instant_in_range(now as int),
    ensures
        match dates_fault(license.issue as int, license.expiry as int, now as int) {
            Some(msg) => r matches Err(AppError::License(m)) && m@ == msg,
            None => r is Ok,
        },
{
    if now + 300_000_000_000i128 < license.issue {
        return Err(
            crate::error::license(
                "The license issue date is in the future. Check the Windows date and time.",
            ),
        );
    }
    if now > license.expiry {
        return Err(
            crate::error::license("The license has expired. Enter a renewed license to continue."),
        );
    }
    Ok(())
}

// ---------------------------------------------------------------------------
// Licence status
// ---------------------------------------------------------------------------

/// What the application shows about its licence.
#[derive(Debug)]
pub struct LicenseStatus {
    pub status: String,
    pub label: String,
    pub message: String,
    pub is_activated: bool,
    pub hardware_id: String,
    pub license_id: Option<String>,
    pub customer: Option<String>,
    pub issue_date: Option<String>,
    pub last_renewed: Option<String>,
    pub granted_days: Option<u32>,
    pub expires_at: Option<String>,
    pub days_remaining: u32,
    /// Whole seconds left before expiry (zero once expired).
    pub seconds_remaining: i128,
    pub masked_key: Option<String>,
}

/// Whole seconds from `now` to `expiry`, or zero once it has passed.
pub open spec fn seconds_left(expiry: int, now: int) -> int {
    if expiry - now > 0 {
        (expiry - now) / nanos_per_second()
    } else {
        0
    }
}

/// Days left, a started day counting as a whole one.
pub open spec fn days_left(seconds: int) -> u32 {
    if seconds == 0 {
        0
    } else {
        ((seconds + 86_399) / 86_400) as u32
    }
}

/// A status that shows no licence data.
pub open spec fn shows_inactive(
    r: LicenseStatus,
    status: Seq<char>,
    label: Seq<char>,
    message: Seq<char>,
    hardware: Seq<char>,
) -> bool {
    &&& r.status@ == status
    &&& r.label@ == label
    &&& r.message@ == message
    &&& !r.is_activated
    &&& r.hardware_id@ == hardware
    &&& r.license_id is None
    &&& r.customer is None
    &&& r.issue_date is None
    &&& r.last_renewed is None
    &&& r.granted_days is None
    &&& r.expires_at is None
    &&& r.days_remaining == 0
    &&& r.seconds_remaining == 0
    &&& r.masked_key is None
}

/// A status that shows a licence's data; only `active` counts as activated.
pub open spec fn shows_license(
    r: LicenseStatus,
    license: VerifiedLicense,
    status: Seq<char>,
    label: Seq<char>,
    message: Seq<char>,
    hardware: Seq<char>,
    renewed: Option<String>,
    now: int,
) -> bool {
    &&& r.status@ == status
    &&& r.label@ == label
    &&& r.message@ == message
    &&& r.is_activated == (status == "active"@)
    &&& r.hardware_id@ == hardware
    &&& r.license_id == Some(license.payload.license_id)
    &&& r.customer == Some(license.payload.customer)
    &&& r.issue_date == Some(license.payload.issue_date)
    &&& r.last_renewed == renewed
    &&& r.granted_days == Some(license.payload.granted_days)
    &&& r.expires_at == Some(license.payload.expiry_date)
    &&& r.seconds_remaining == seconds_left(license.expiry as int, now)
    &&& r.days_remaining == days_left(seconds_left(license.expiry as int, now))
    &&& r.masked_key == Some(license.masked_key)
}

/// A status with no licence data behind it.
pub fn inactive_status(status: &str, label: &str, message: &str, hardware_id: &str) -> (r:
    LicenseStatus)
    ensures
        shows_inactive(r, status@, label@, message@, hardware_id@),
{
    LicenseStatus {
        status: owned(status),
        label: owned(label),
        message: owned(message),
        is_activated: false,
        hardware_id: owned(hardware_id),
        license_id: None,
        customer: None,
        issue_date: None,
        last_renewed: None,
        granted_days: None,
        expires_at: None,
        days_remaining: 0,
        seconds_remaining: 0,
        masked_key: None,
    }
}

/// A status showing `license`, with the time left counted from `now`.
pub fn payload_status(
    license: &VerifiedLicense,
    status: &str,
    label: &str,
    message: &str,
    hardware_id: &str,
    last_renewed: Option<String>,
    now: i128,
) -> (r: LicenseStatus)
    requires
        licence_in_range(*license),
        instant_in_range(now as int),
    ensures
        shows_license(r, *license, status@, label@, message@, hardware_id@, last_renewed, now as int),
{
    let left = license.expiry - now;
    let seconds: i128 = if left > 0 { left / 1_000_000_000i128 } else { 0 };
    let days: u32 = if seconds == 0 { 0 } else { ((seconds + 86_399) / 86_400) as u32 };
    proof {
        reveal_strlit("active");
    }
    LicenseStatus {
        status: owned(status),
        label: owned(label),
        message: owned(message),
        is_activated: crate::text::str_eq(status, "active"),
        hardware_id: owned(hardware_id),
        license_id: Some(license.payload.license_id.clone()),
        customer: Some(license.payload.customer.clone()),
        issue_date: Some(license.payload.issue_date.clone()),
        last_renewed,
        granted_days: Some(license.payload.granted_days),
        expires_at: Some(license.payload.expiry_date.clone()),
        days_remaining: days,
        seconds_remaining: seconds,
        masked_key: Some(license.masked_key.clone()),
    }
}


// ---------------------------------------------------------------------------
// Evaluating the stored licence
// ---------------------------------------------------------------------------

/// What was found where the licence is stored.
#[derive(Debug)]
pub enum StoredLicense {
    /// No licence file.
    Missing,
    /// The file exists but cannot be read.
    Unreadable,
    /// The protected bytes could not be opened, or are not text.
    Undecodable,
    /// The stored token, and what verifying it gave.
    Read(Result<VerifiedLicense, VerifyFailure>),
}

/// The protected clock record: the last instant the application saw, and the
/// digest of the licence it saw it with.
#[derive(Debug)]
pub struct ClockAnchor {
    pub last_seen_utc: String,
    pub license_digest: String,
}

/// What was found where the clock record is stored.
#[derive(Debug)]
pub enum AnchorRead {
    Missing,
    /// Present, but it could not be opened or read as a record.
    Damaged,
    Present(ClockAnchor),
}

pub open spec fn stored_in_range(stored: StoredLicense) -> bool {
    stored matches StoredLicense::Read(Ok(license)) ==> licence_in_range(license)
}

/// The status the stored licence reports at `now`, and whether the clock
/// record is to be rewritten with `now`.
pub open spec fn evaluated_as(
    r: (LicenseStatus, bool),
    stored: StoredLicense,
    anchor: AnchorRead,
    hardware: Seq<char>,
    now: int,
    update_clock: bool,
    renewed: Option<String>,
) -> bool {
    match stored {
        StoredLicense::Missing => !r.1 && shows_inactive(
            r.0,
            "missing"@,
            "License required"@,
            "No license is installed on this computer."@,
            hardware,
        ),
        StoredLicense::Unreadable => !r.1 && shows_inactive(
            r.0,
            "invalid"@,
            "Invalid license"@,
            "The installed license cannot be read."@,
            hardware,
        ),
        StoredLicense::Undecodable => !r.1 && shows_inactive(
            r.0,
            "tampered"@,
            "Tampered license"@,
            "The installed license was modified or copied from another computer."@,
            hardware,
        ),
        StoredLicense::Read(Err(VerifyFailure::HardwareMismatch)) => !r.1 && shows_inactive(
            r.0,
            "wrong_hardware"@,
            "License is for another computer"@,
            "Request a license for the Hardware ID shown below."@,
            hardware,
        ),
        StoredLicense::Read(Err(VerifyFailure::Invalid(m))) => !r.1 && shows_inactive(
            r.0,
            "invalid"@,
            "Invalid license"@,
            m@,
            hardware,
        ),
        StoredLicense::Read(Err(VerifyFailure::Tampered)) => !r.1 && shows_inactive(
            r.0,
            "tampered"@,
            "Tampered license"@,
            "The license signature is not valid."@,
            hardware,
        ),
        StoredLicense::Read(Ok(license)) => evaluated_license_as(
            r,
            license,
            anchor,
            hardware,
            now,
            update_clock,
            renewed,
        ),
    }
}

/// The status of a verified licence: its dates first, then the clock record,
/// which must be present, readable, for this licence, and not later than the
/// tolerance allows.
pub open spec fn evaluated_license_as(
    r: (LicenseStatus, bool),
    license: VerifiedLicense,
    anchor: AnchorRead,
    hardware: Seq<char>,
    now: int,
    update_clock: bool,
    renewed: Option<String>,
) -> bool {
    let shows = |status: Seq<char>, label: Seq<char>, message: Seq<char>|
        shows_license(r.0, license, status, label, message, hardware, renewed, now);
    match dates_fault(license.issue as int, license.expiry as int, now) {
        Some(msg) => !r.1 && if now > license.expiry {
            shows("expired"@, "License expired"@, msg)
        } else {
            shows("clock_rollback"@, "Clock rollback detected"@, msg)
        },
        None => match anchor {
            AnchorRead::Missing => !r.1 && shows(
                "tampered"@,
                "License state is incomplete"@,
                "The protected clock record is missing. Re-enter a newly issued license."@,
            ),
            AnchorRead::Damaged => !r.1 && shows(
                "tampered"@,
                "License state is damaged"@,
                "The protected clock record could not be verified."@,
            ),
            AnchorRead::Present(a) => match rfc3339_nanos(a.last_seen_utc@) {
                None => !r.1 && shows(
                    "tampered"@,
                    "License state is damaged"@,
                    "The protected clock record contains invalid data."@,
                ),
                Some(last_seen) => if a.license_digest@ != license.token_digest@ {
                    !r.1 && shows(
                        "tampered"@,
                        "License state does not match"@,
                        "The installed license and its protected clock record do not match."@,
                    )
                } else if now + clock_tolerance() < last_seen {
                    !r.1 && shows(
                        "clock_rollback"@,
                        "Clock rollback detected"@,
                        "Windows time is earlier than the last verified application time."@,
                    )
                } else {
                    &&& r.1 == (update_clock && now - last_seen >= clock_write_interval())
                    &&& shows("active"@, "Active"@, "This computer has a valid offline license."@)
                },
            },
        },
    }
}

fn status_of_license(
    license: &VerifiedLicense,
    anchor: AnchorRead,
    hardware_id: &str,
    now: i128,
    update_clock: bool,
    last_renewed: Option<String>,
) -> (r: (LicenseStatus, bool))
    requires
        licence_in_range(*license),
        instant_in_range(now as int),
    ensures
        evaluated_license_as(r, *license, anchor, hardware_id@, now as int, update_clock, last_renewed),
{
    if let Err(e) = validate_dates(license, now) {
        let message = match e {
            AppError::License(m) => m,
            _ => String::new(),
        };
        if now > license.expiry {
            return (
                payload_status(
                    license,
                    "expired",
                    "License expired",
                    message.as_str(),
                    hardware_id,
                    last_renewed,
                    now,
                ),
                false,
            );
        } else {
            return (
                payload_status(
                    license,
                    "clock_rollback",
                    "Clock rollback detected",
                    message.as_str(),
                    hardware_id,
                    last_renewed,
                    now,
                ),
                false,
            );
        }
    }
    let a = match anchor {
        AnchorRead::Missing => {
            return (
                payload_status(
                    license,
                    "tampered",
                    "License state is incomplete",
                    "The protected clock record is missing. Re-enter a newly issued license.",
                    hardware_id,
                    last_renewed,
                    now,
                ),
                false,
            );
        },
        AnchorRead::Damaged => {
            return (
                payload_status(
                    license,
                    "tampered",
                    "License state is damaged",
                    "The protected clock record could not be verified.",
                    hardware_id,
                    last_renewed,
                    now,
                ),
                false,
            );
        },
        AnchorRead::Present(a) => a,
    };
    let last_seen = match parse_instant(a.last_seen_utc.as_str()) {
        Some(t) => t,
        None => {
            return (
                payload_status(
                    license,
                    "tampered",
                    "License state is damaged",
                    "The protected clock record contains invalid data.",
                    hardware_id,
                    last_renewed,
                    now,
                ),
                false,
            );
        },
    };
    if !crate::text::str_eq(a.license_digest.as_str(), license.token_digest.as_str()) {
        return (
            payload_status(
                license,
                "tampered",
                "License state does not match",
                "The installed license and its protected clock record do not match.",
                hardware_id,
                last_renewed,
                now,
            ),
            false,
        );
    }
    if clock_rolled_back(now, last_seen) {
        return (
            payload_status(
                license,
                "clock_rollback",
                "Clock rollback detected",
                "Windows time is earlier than the last verified application time.",
                hardware_id,
                last_renewed,
                now,
            ),
            false,
        );
    }
    let refresh = update_clock && clock_refresh_due(now, last_seen);
    (
        payload_status(
            license,
            "active",
            "Active",
            "This computer has a valid offline license.",
            hardware_id,
            last_renewed,
            now,
        ),
        refresh,
    )
}

/// The status the stored licence reports at `now`, given what was read where
/// the licence and the clock record are kept, and whether the clock record is
/// now to be rewritten (with `now` and the licence's digest). Reading the
/// clock record matters only once the licence and its dates pass.
pub fn evaluate_license(
    stored: StoredLicense,
    anchor: AnchorRead,
    hardware_id: &str,
    now: i128,
    update_clock: bool,
    last_renewed: Option<String>,
) -> (r: (LicenseStatus, bool))
    requires
        stored_in_range(stored),
        instant_in_range(now as int),
    ensures
        evaluated_as(r, stored, anchor, hardware_id@, now as int, update_clock, last_renewed),
{
    match stored {
        StoredLicense::Missing => (
            inactive_status(
                "missing",
                "License required",
                "No license is installed on this computer.",
                hardware_id,
            ),
            false,
        ),
        StoredLicense::Unreadable => (
            inactive_status(
                "invalid",
                "Invalid license",
                "The installed license cannot be read.",
                hardware_id,
            ),
            false,
        ),
        StoredLicense::Undecodable => (
            inactive_status(
                "tampered",
                "Tampered license",
                "The installed license was modified or copied from another computer.",
                hardware_id,
            ),
            false,
        ),
        StoredLicense::Read(Err(VerifyFailure::HardwareMismatch)) => (
            inactive_status(
                "wrong_hardware",
                "License is for another computer",
                "Request a license for the Hardware ID shown below.",
                hardware_id,
            ),
            false,
        ),
        StoredLicense::Read(Err(VerifyFailure::Invalid(m))) => (
            inactive_status("invalid", "Invalid license", m.as_str(), hardware_id),
            false,
        ),
        StoredLicense::Read(Err(VerifyFailure::Tampered)) => (
            inactive_status(
                "tampered",
                "Tampered license",
                "The license signature is not valid.",
                hardware_id,
            ),
            false,
        ),
        StoredLicense::Read(Ok(license)) => status_of_license(
            &license,
            anchor,
            hardware_id,
            now,
            update_clock,
            last_renewed,
        ),
    }
}


// ---------------------------------------------------------------------------
// Activation
// ---------------------------------------------------------------------------

/// Longest licence key accepted, in bytes.
pub open spec fn max_key_bytes() -> int {
    16_384
}

/// The key a user entered, trimmed; refused when longer than 16 KiB.
pub fn activation_key(license_key: &str) -> (r: Result<String, AppError>)
    ensures
        utf8_len(trim(license_key@)) <= max_key_bytes() ==> (r matches Ok(k) && k@ == trim(
            license_key@,
        )),
        utf8_len(trim(license_key@)) > max_key_bytes() ==> (r matches Err(AppError::Validation(m))
            && m@ == "license key is too long"@),
{
    let key = trim_str(license_key);
    if utf8_byte_len(key.as_str()) > 16_384 {
        return Err(crate::error::validation("license key is too long"));
    }
    Ok(key)
}

/// The error an activation answers for a token that did not verify.
pub open spec fn refusal_of(failure: VerifyFailure, e: AppError) -> bool {
    match failure {
        VerifyFailure::HardwareMismatch => e matches AppError::License(m) && m@
            == "This license was issued for another computer."@,
        VerifyFailure::Invalid(msg) => e matches AppError::Validation(m) && m@ == msg@,
        VerifyFailure::Tampered => e matches AppError::License(m) && m@
            == "The license signature is invalid or the license was tampered with."@,
    }
}

/// What activating with `key` decides, given what verifying it gave, the
/// clock record, whether a licence file is installed, and the installed key.
pub open spec fn activation_as(
    r: Result<VerifiedLicense, AppError>,
    verified: Result<VerifiedLicense, VerifyFailure>,
    now: int,
    anchor: AnchorRead,
    license_file_exists: bool,
    installed_key: Option<String>,
    key: Seq<char>,
) -> bool {
    match verified {
        Err(f) => r matches Err(e) && refusal_of(f, e),
        Ok(license) => match dates_fault(license.issue as int, license.expiry as int, now) {
            Some(msg) => r matches Err(AppError::License(m)) && m@ == msg,
            None => match anchor {
                AnchorRead::Present(a) => match rfc3339_nanos(a.last_seen_utc@) {
                    None => r matches Err(AppError::Validation(m)) && m@
                        == "license clock anchor is invalid"@,
                    Some(last_seen) => if now + clock_tolerance() < last_seen {
                        r matches Err(AppError::License(m)) && m@
                            == "Clock rollback detected. Correct the Windows date and time before renewing."@
                    } else {
                        r == Ok::<VerifiedLicense, AppError>(license)
                    },
                },
                _ => if license_file_exists && (installed_key matches Some(k) && trim(k@) == key
                    || license.issue < now - recovery_max_age()) {
                    r matches Err(AppError::License(m)) && m@
                        == "The protected clock record is missing or damaged. A newly issued renewal license is required."@
                } else {
                    r == Ok::<VerifiedLicense, AppError>(license)
                },
            },
        },
    }
}

/// Decides whether a verified key may be installed: its dates must pass; a
/// readable clock record must not lie beyond the tolerance in the future; and
/// where a licence is installed but its clock record is missing or damaged,
/// only a newly issued licence (a different key, issued within a day) restores
/// it. A renewal thus cannot erase evidence that the clock was moved back.
pub fn check_activation(
    verified: Result<VerifiedLicense, VerifyFailure>,
    now: i128,
    anchor: AnchorRead,
    license_file_exists: bool,
    installed_key: Option<String>,
    key: &str,
) -> (r: Result<VerifiedLicense, AppError>)
    requires
        instant_in_range(now as int),
    ensures
        activation_as(r, verified, now as int, anchor, license_file_exists, installed_key, key@),
{
    let license = match verified {
        Ok(v) => v,
        Err(VerifyFailure::HardwareMismatch) => {
            return Err(crate::error::license("This license was issued for another computer."));
        },
        Err(VerifyFailure::Invalid(m)) => {
            return Err(AppError::Validation(m));
        },
        Err(VerifyFailure::Tampered) => {
            return Err(
                crate::error::license(
                    "The license signature is invalid or the license was tampered with.",
                ),
            );
        },
    };
    match validate_dates(&license, now) {
        Err(e) => {
            return Err(e);
        },
        Ok(()) => {},
    }
    match anchor {
        AnchorRead::Present(a) => {
            let last_seen = match parse_instant(a.last_seen_utc.as_str()) {
                Some(t) => t,
                None => {
                    return Err(crate::error::validation("license clock anchor is invalid"));
                },
            };
            if clock_rolled_back(now, last_seen) {
                return Err(
                    crate::error::license(
                        "Clock rollback detected. Correct the Windows date and time before renewing.",
                    ),
                );
            }
        },
        _ => {
            if license_file_exists {
                let same_key = match installed_key {
                    Some(k) => {
                        let t = trim_str(k.as_str());
                        crate::text::str_eq(t.as_str(), key)
                    },
                    None => false,
                };
                if recovery_requires_new_license(same_key, license.issue, now) {
                    return Err(
                        crate::error::license(
                            "The protected clock record is missing or damaged. A newly issued renewal license is required.",
                        ),
                    );
                }
            }
        },
    }
    Ok(license)
}

// ---------------------------------------------------------------------------
// The command gate
// ---------------------------------------------------------------------------

/// Commands that run whatever the licence state: reading it and activating.
pub open spec fn exempt_command(command: Seq<char>) -> bool {
    command == "license_status"@ || command == "license_activate"@
}

pub fn command_exempt(command: &str) -> (r: bool)
    ensures
        r == exempt_command(command@),
{
    crate::text::str_eq(command, "license_status") || crate::text::str_eq(command, "license_activate")
}

/// A command runs only under an activated licence; otherwise it is refused
/// with the status's label.
pub fn allow_under(current: &LicenseStatus) -> (r: Result<(), AppError>)
    ensures
        current.is_activated ==> r is Ok,
        !current.is_activated ==> (r matches Err(AppError::License(m)) && m@ == current.label@),
{
    if current.is_activated {
        Ok(())
    } else {
        Err(AppError::License(current.label.clone()))
    }
}

/// The verifier's settings for this process: where licences are kept, and
/// this computer's hardware id.
#[derive(Debug)]
pub struct LicenseRuntime {
    pub license_dir: String,
    pub hardware_id: String,
}

/// Installs the verifier's settings; a second installation is refused and
/// leaves the first in place.
pub fn initialize(slot: &mut Option<LicenseRuntime>, runtime: LicenseRuntime) -> (r: Result<(), AppError>)
    ensures
        old(slot).is_some() ==> *final(slot) == *old(slot),
        old(slot).is_some() ==> (r matches Err(AppError::Internal(m)) && m@
            == "license verifier was initialized twice"@),
        old(slot).is_none() ==> (*final(slot) == Some(runtime) && r is Ok),
{
    if slot.is_some() {
        return Err(crate::error::internal("license verifier was initialized twice"));
    }
    *slot = Some(runtime);
    Ok(())
}


// ---------------------------------------------------------------------------
// Laws
// ---------------------------------------------------------------------------

/// The stored token verified, its dates pass, and its clock record is
/// readable, belongs to that token and shows no rollback.
pub open spec fn licence_checks_pass(stored: StoredLicense, anchor: AnchorRead, now: int) -> bool {
    match stored {
        StoredLicense::Read(Ok(license)) => {
            &&& dates_fault(license.issue as int, license.expiry as int, now) is None
            &&& match anchor {
                AnchorRead::Present(a) => match rfc3339_nanos(a.last_seen_utc@) {
                    Some(last_seen) => a.license_digest@ == license.token_digest@ && !(now
                        + clock_tolerance() < last_seen),
                    None => false,
                },
                _ => false,
            }
        },
        _ => false,
    }
}

/// The licence check fails closed: the application counts as activated only
/// when the stored token verified, its dates pass, and its clock record is
/// readable, belongs to that very token, and shows no rollback.
pub proof fn law_activation_fails_closed(
    r: (LicenseStatus, bool),
    stored: StoredLicense,
    anchor: AnchorRead,
    hardware: Seq<char>,
    now: int,
    update_clock: bool,
    renewed: Option<String>,
)
    requires
        evaluated_as(r, stored, anchor, hardware, now, update_clock, renewed),
        r.0.is_activated,
    ensures
        licence_checks_pass(stored, anchor, now),
{
    reveal_strlit("active");
    reveal_strlit("expired");
    reveal_strlit("clock_rollback");
    reveal_strlit("tampered");
    assert("expired"@.len() != "active"@.len());
    assert("tampered"@ != "active"@) by {
        assert("tampered"@[0] != "active"@[0]);
    }
    assert("clock_rollback"@.len() != "active"@.len());
}

/// An active licence stays active as the clock moves on, up to its expiry,
/// as long as what is stored does not change: restarting the application
/// later does not lose it.
pub proof fn law_active_until_expiry(
    r: (LicenseStatus, bool),
    later: (LicenseStatus, bool),
    license: VerifiedLicense,
    anchor: AnchorRead,
    hardware: Seq<char>,
    now: int,
    then: int,
    update_clock: bool,
    renewed: Option<String>,
)
    requires
        evaluated_as(r, StoredLicense::Read(Ok(license)), anchor, hardware, now, update_clock, renewed),
        r.0.is_activated,
        now <= then <= license.expiry,
        evaluated_as(later, StoredLicense::Read(Ok(license)), anchor, hardware, then, update_clock, renewed),
    ensures
        later.0.is_activated,
        later.0.status@ == "active"@,
{
    law_activation_fails_closed(r, StoredLicense::Read(Ok(license)), anchor, hardware, now, update_clock, renewed);
}

/// A renewal cannot erase evidence that the clock was moved back: while a
/// readable clock record lies beyond the tolerance after `now`, no key is
/// installed.
pub proof fn law_renewal_keeps_rollback_evidence(
    r: Result<VerifiedLicense, AppError>,
    verified: Result<VerifiedLicense, VerifyFailure>,
    now: int,
    anchor: ClockAnchor,
    license_file_exists: bool,
    installed_key: Option<String>,
    key: Seq<char>,
    last_seen: int,
)
    requires
        activation_as(r, verified, now, AnchorRead::Present(anchor), license_file_exists, installed_key, key),
        rfc3339_nanos(anchor.last_seen_utc@) == Some(last_seen),
        now + clock_tolerance() < last_seen,
    ensures
        r is Err,
{
}

/// Once the clock record of an installed licence is missing or damaged, it
/// cannot be reset by re-entering the same key, nor by a licence issued more
/// than a day ago.
pub proof fn law_lost_clock_needs_new_license(
    r: Result<VerifiedLicense, AppError>,
    license: VerifiedLicense,
    now: int,
    anchor: AnchorRead,
    installed_key: Option<String>,
    key: Seq<char>,
)
    requires
        activation_as(r, Ok(license), now, anchor, true, installed_key, key),
        !(anchor is Present),
        installed_key matches Some(k) && trim(k@) == key || license.issue < now - recovery_max_age(),
    ensures
        r is Err,
{
}


// ---------------------------------------------------------------------------
// Where licences are kept
// ---------------------------------------------------------------------------

/// The stored licence key.
pub fn license_path(directory: &str) -> (r: String)
    ensures
        r@ == joined_path(directory@, "license.dat"@),
{
    join_path(directory, "license.dat")
}

/// The protected clock record.
pub fn anchor_path(directory: &str) -> (r: String)
    ensures
        r@ == joined_path(directory@, "clock.dat"@),
{
    join_path(directory, "clock.dat")
}

/// When the licence was last renewed.
pub fn renewed_path(directory: &str) -> (r: String)
    ensures
        r@ == joined_path(directory@, "renewed.dat"@),
{
    join_path(directory, "renewed.dat")
}

} // verus!
