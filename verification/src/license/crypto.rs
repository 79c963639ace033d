//! Signing canonical payloads and validating signed license envelopes.
//!
//! A signature is PKCS#1 v1.5 over the SHA-256 digest of the UTF-8 bytes of
//! the canonical payload JSON, Base64-encoded.  An envelope is the JSON
//! object `{"payload": <payload>, "signature": "<base64>"}`.
use vstd::prelude::*;
use vstd::utf8::encode_utf8;

use crate::license::canonical::{canonical_payload_json, payload_json};
use crate::license::errors::CryptoError;
use crate::license::evaluator::{major_of, parse_major};
use crate::license::decode::{decode_payload, opt_day, opt_u8, payload_fields, payload_shaped};
use crate::license::json::{
    canonicalize_value, json_as_str, json_get, json_member, json_str, parse_json, serde_json_text, serde_json_tree, Json,
};
use crate::license::keys::{
    rsa_modulus_bytes, rsa_public_pem_of, base64_decode, base64_decode_text, base64_encode, base64_encode_bytes, rsa_pkcs1v15_accepts,
    rsa_pkcs1v15_signature, sha256, sha256_digest, PrivateKey, PublicKey,
};
use crate::license::types::{LicensePayload, SignedLicense, ValidationOutcome, Verdict};
use crate::text::{push_str, str_eq};
use crate::util::datetime::Date;

verus! {

/// The signature bytes a key makes of a payload: PKCS#1 v1.5 with the
/// SHA-256 DigestInfo prefix, over the SHA-256 digest of the canonical JSON.
pub open spec fn payload_signature(key: Seq<char>, p: LicensePayload) -> Option<Seq<u8>> {
    rsa_pkcs1v15_signature(key, true, sha256(encode_utf8(payload_json(p))))
}

/// Canonicalizes a payload to compact, deterministic JSON.
pub fn canonicalize_payload(payload: &LicensePayload) -> (r: String)
    ensures
        r@ == payload_json(*payload),
{
    canonical_payload_json(payload)
}

fn owned(s: &str) -> (r: String)
    ensures
        r@ == s@,
{
    let mut r = String::new();
    push_str(&mut r, s);
    r
}

/// Signs a payload: canonical JSON, its SHA-256 digest, the PKCS#1 v1.5
/// signature of the digest, Base64.
pub fn sign_payload(payload: &LicensePayload, private_key: &PrivateKey) -> (r: Result<SignedLicense, CryptoError>)
    ensures
        r is Ok <==> payload_signature(private_key@, *payload) is Some,
        r matches Ok(s) ==> s.payload_json@ == payload_json(*payload)
            && s.signature@ == base64_encode(payload_signature(private_key@, *payload).unwrap())
            && payload_signature(private_key@, *payload).unwrap().len() == rsa_modulus_bytes(private_key@),
        r matches Err(e) ==> e is SignError,
        rsa_modulus_bytes(private_key@) < 62 ==> r is Err,
{
    let json = canonicalize_payload(payload);
    let bytes = json.as_str().as_bytes();
    let digest = sha256_digest(bytes);
    match private_key.sign_digest(true, digest.as_slice()) {
        Some(raw) => {
            let signature = base64_encode_bytes(raw.as_slice());
            Ok(SignedLicense { payload_json: json, signature })
        },
        None => Err(CryptoError::SignError(owned("Failed to sign license payload"))),
    }
}

/// Whether a Base64 signature verifies, under a public key, the SHA-256
/// digest of the UTF-8 bytes of a payload text.
pub open spec fn signature_valid(payload_text: Seq<char>, signature_b64: Seq<char>, public_key: Seq<char>) -> bool {
    match base64_decode(signature_b64) {
        Some(sig) => rsa_pkcs1v15_accepts(public_key, sha256(encode_utf8(payload_text)), sig),
        None => false,
    }
}

/// Whether a Base64 signature of a payload text is the one a private key
/// makes, and the public key is that key's public half.
pub open spec fn made_by(private_pem: Seq<char>, public_key: Seq<char>, payload_text: Seq<char>, signature_b64: Seq<char>) -> bool {
    &&& rsa_public_pem_of(private_pem) == Some(public_key)
    &&& rsa_pkcs1v15_signature(private_pem, true, sha256(encode_utf8(payload_text))) is Some
    &&& signature_b64 == base64_encode(rsa_pkcs1v15_signature(private_pem, true, sha256(encode_utf8(payload_text))).unwrap())
}

/// Checks the signature of a payload text.  A signature the matching
/// private key made of the same text is accepted.
pub fn check_signature(payload_text: &str, signature_b64: &str, public_key: &PublicKey) -> (r: bool)
    ensures
        r == signature_valid(payload_text@, signature_b64@, public_key@),
        forall|private_pem: Seq<char>|
            made_by(private_pem, public_key@, payload_text@, signature_b64@) ==> r,
{
    match base64_decode_text(signature_b64) {
        None => {
            proof {
                assert forall|private_pem: Seq<char>|
                    !made_by(private_pem, public_key@, payload_text@, signature_b64@) by {
                    if made_by(private_pem, public_key@, payload_text@, signature_b64@) {
                        let sig = rsa_pkcs1v15_signature(private_pem, true, sha256(encode_utf8(payload_text@))).unwrap();
                        assert(base64_encode(sig) == signature_b64@);
                    }
                }
            }
            false
        },
        Some(sig) => {
            let digest = sha256_digest(payload_text.as_bytes());
            let ok = public_key.verify_digest(digest.as_slice(), sig.as_slice());
            proof {
                assert forall|private_pem: Seq<char>|
                    made_by(private_pem, public_key@, payload_text@, signature_b64@) implies ok by {
                    let s = rsa_pkcs1v15_signature(private_pem, true, sha256(encode_utf8(payload_text@))).unwrap();
                    assert(base64_encode(s) == signature_b64@);
                    assert(sig@ == s);
                    assert(rsa_pkcs1v15_signature(private_pem, true, digest@) == Some(sig@));
                }
            }
            ok
        },
    }
}

/// The semantic verdict on a payload whose signature is valid, on the day
/// `today`:
/// - COM and DEV editions are always valid;
/// - an expiration before today makes the license expired (DEMO-expired for
///   DEMO), and a DEMO license must have an expiration;
/// - where both the product version and the license give a major version, a
///   DEMO license must match it exactly and any other license must be for the
///   product's major version or a later one;
/// - otherwise the license is valid.
pub open spec fn payload_verdict(p: LicensePayload, today: Date) -> Verdict {
    let code = p.edition.code@;
    let demo = code == "DEMO"@;
    if code == "COM"@ || code == "DEV"@ {
        Verdict::Valid
    } else if p.validity.expires matches Some(e) && e.day() < today.day() {
        if demo {
            Verdict::DemoExpired(p.validity.expires.unwrap())
        } else {
            Verdict::Expired(p.validity.expires.unwrap())
        }
    } else if p.validity.expires is None && demo {
        Verdict::DemoMissingExpiration
    } else {
        match (major_of(p.product.version@), p.validity.valid_major) {
            (Some(pm), Some(m)) => {
                if demo {
                    if m != pm {
                        Verdict::DemoMajorMismatch { product_major: pm, license_major: m }
                    } else {
                        Verdict::Valid
                    }
                } else if pm > m {
                    Verdict::MajorVersionMismatch { product_major: pm, license_major: m }
                } else {
                    Verdict::Valid
                }
            },
            _ => Verdict::Valid,
        }
    }
}

/// The semantic checks on a payload, on the day `today`.
pub fn judge_payload(payload: &LicensePayload, today: Date) -> (r: ValidationOutcome)
    ensures
        r@ == payload_verdict(*payload, today),
{
    let code = payload.edition.code.as_str();
    let is_com = str_eq(code, "COM");
    let is_dev = str_eq(code, "DEV");
    let is_demo = str_eq(code, "DEMO");
    if is_com || is_dev {
        return ValidationOutcome::Valid;
    }
    match payload.validity.expires {
        Some(exp) => {
            if exp.days() < today.days() {
                if is_demo {
                    return ValidationOutcome::DemoExpired(exp);
                }
                return ValidationOutcome::Expired(exp);
            }
        },
        None => {
            if is_demo {
                return ValidationOutcome::DemoMissingExpiration;
            }
        },
    }
    let product_major = parse_major(payload.product.version.as_str());
    if let Some(prod_major) = product_major {
        if let Some(major) = payload.validity.valid_major {
            if is_demo {
                if major != prod_major {
                    return ValidationOutcome::DemoMajorMismatch {
                        product_major: prod_major,
                        license_major: major,
                    };
                }
            } else {
                if prod_major > major {
                    return ValidationOutcome::MajorVersionMismatch {
                        product_major: prod_major,
                        license_major: major,
                    };
                }
            }
        }
    }
    ValidationOutcome::Valid
}

/// What serde_json gave back for the parts of an envelope.
pub enum EnvelopeRead {
    /// The text is not JSON.
    InvalidJson,
    /// No `payload` member.
    MissingPayload,
    /// No `signature` member holding a string.
    MissingSignature,
    /// serde_json could not write the payload back.
    CanonicalizationFailed,
    /// The canonical text of the payload, the signature text, and the payload
    /// read as a license payload where it has that shape.
    Parts { payload_json: String, signature: String, payload: Option<LicensePayload> },
}

/// The verdict on an envelope's parts, on the day `today`.
pub open spec fn envelope_verdict(read: EnvelopeRead, public_key: Seq<char>, today: Date) -> Verdict {
    match read {
        EnvelopeRead::InvalidJson => Verdict::PayloadMalformed("Invalid JSON"@),
        EnvelopeRead::MissingPayload => Verdict::PayloadMalformed("Missing payload"@),
        EnvelopeRead::MissingSignature => Verdict::PayloadMalformed("Missing signature"@),
        EnvelopeRead::CanonicalizationFailed => Verdict::PayloadMalformed(
            "Canonicalization failed: Failed to serialize JSON value to canonical JSON"@,
        ),
        EnvelopeRead::Parts { payload_json, signature, payload } => {
            if !signature_valid(payload_json@, signature@, public_key) {
                Verdict::SignatureInvalid
            } else {
                match payload {
                    Some(p) => payload_verdict(p, today),
                    None => Verdict::PayloadMalformed("Payload schema mismatch"@),
                }
            }
        },
    }
}

/// Whether an envelope's parts hold a payload and the signature the private
/// key made of the payload text, and the public key is that key's public half.
pub open spec fn signed_parts(read: EnvelopeRead, private_pem: Seq<char>, public_key: Seq<char>) -> bool {
    &&& read is Parts
    &&& read->payload is Some
    &&& made_by(private_pem, public_key, read->payload_json@, read->signature@)
}

/// Validates the parts of an envelope: the signature, then the payload's
/// shape, then the semantic rules.
pub fn assess_envelope(read: EnvelopeRead, public_key: &PublicKey, today: Date) -> (r: ValidationOutcome)
    ensures
        r@ == envelope_verdict(read, public_key@, today),
        forall|private_pem: Seq<char>|
            #[trigger] signed_parts(read, private_pem, public_key@) ==> r@ == payload_verdict(
                read->payload.unwrap(),
                today,
            ),
{
    match read {
        EnvelopeRead::InvalidJson => ValidationOutcome::PayloadMalformed(owned("Invalid JSON")),
        EnvelopeRead::MissingPayload => ValidationOutcome::PayloadMalformed(owned("Missing payload")),
        EnvelopeRead::MissingSignature => ValidationOutcome::PayloadMalformed(owned("Missing signature")),
        EnvelopeRead::CanonicalizationFailed => ValidationOutcome::PayloadMalformed(
            owned("Canonicalization failed: Failed to serialize JSON value to canonical JSON"),
        ),
        EnvelopeRead::Parts { payload_json, signature, payload } => {
            if !check_signature(payload_json.as_str(), signature.as_str(), public_key) {
                return ValidationOutcome::SignatureInvalid;
            }
            match payload {
                Some(p) => judge_payload(&p, today),
                None => ValidationOutcome::PayloadMalformed(owned("Payload schema mismatch")),
            }
        },
    }
}

/// Whether `read` is what the reading of an envelope text gives: serde_json's
/// tree of the text, its `payload` member, its `signature` string, the
/// payload's canonical text, and the payload read as a license payload.
pub open spec fn envelope_read_of(text: Seq<char>, read: EnvelopeRead) -> bool {
    match serde_json_tree(text) {
        None => read is InvalidJson,
        Some(w) => match json_get(w, "payload"@) {
            None => read is MissingPayload,
            Some(pv) => match signature_member(w) {
                None => read is MissingSignature,
                Some(sig) => match serde_json_text(pv) {
                    None => read is CanonicalizationFailed,
                    Some(t) => read matches EnvelopeRead::Parts { payload_json, signature, payload }
                        && payload_json@ == t && signature@ == sig && match payload {
                        Some(p) => payload_fields(pv, p),
                        None => !payload_shaped(pv),
                    },
                },
            },
        },
    }
}

/// The `signature` member of an envelope, where it is a string
/// (`Value::get`, then `Value::as_str`).
pub open spec fn signature_member(w: Json) -> Option<Seq<char>> {
    match json_get(w, "signature"@) {
        Some(m) => json_str(m),
        None => None,
    }
}

/// Reads an envelope through serde_json: its payload's canonical text, its
/// signature, and its payload as a license payload.
pub fn read_envelope(license_json: &str) -> (r: EnvelopeRead)
    ensures
        envelope_read_of(license_json@, r),
{
    let wrapper = match parse_json(license_json) {
        Some(v) => v,
        None => return EnvelopeRead::InvalidJson,
    };
    let payload_val = match json_member(&wrapper, "payload") {
        Some(v) => v,
        None => return EnvelopeRead::MissingPayload,
    };
    let signature = match json_member(&wrapper, "signature") {
        Some(m) => match json_as_str(m) {
            Some(s) => s,
            None => return EnvelopeRead::MissingSignature,
        },
        None => return EnvelopeRead::MissingSignature,
    };
    let payload_json = match canonicalize_value(payload_val) {
        Some(s) => s,
        None => return EnvelopeRead::CanonicalizationFailed,
    };
    let payload = decode_payload(payload_val);
    EnvelopeRead::Parts { payload_json, signature, payload }
}

/// Whether a verdict is the one an envelope's parts get on the day `today`;
/// where the matching private key signed the payload text, that is the
/// verdict on the payload alone.
pub open spec fn envelope_judged(read: EnvelopeRead, public_key: Seq<char>, today: Date, v: Verdict) -> bool {
    &&& v == envelope_verdict(read, public_key, today)
    &&& forall|private_pem: Seq<char>|
        #[trigger] signed_parts(read, private_pem, public_key) ==> v == payload_verdict(read->payload.unwrap(), today)
}

/// Payloads read from the same JSON value get the same verdict.
proof fn lemma_read_payloads_agree(pv: Json, p: LicensePayload, q: LicensePayload, today: Date)
    requires
        payload_fields(pv, p),
        payload_fields(pv, q),
    ensures
        payload_verdict(p, today) == payload_verdict(q, today),
{
    assert(p.edition.code@ == q.edition.code@);
    assert(p.product.version@ == q.product.version@);
    assert(opt_u8(p.validity.valid_major) == opt_u8(q.validity.valid_major));
    assert(p.validity.valid_major == q.validity.valid_major);
    assert(opt_day(p.validity.expires) == opt_day(q.validity.expires));
    if p.validity.expires is Some {
        Date::lemma_day_determines_date(p.validity.expires.unwrap(), q.validity.expires.unwrap());
    }
    assert(p.validity.expires == q.validity.expires);
}

/// An envelope text has one verdict under a public key on a given day:
/// whatever verdicts its validation is said to give there are equal.
pub proof fn law_envelope_verdict_is_unique(text: Seq<char>, public_key: Seq<char>, today: Date, v1: Verdict, v2: Verdict)
    requires
        exists|read: EnvelopeRead| envelope_read_of(text, read) && envelope_judged(read, public_key, today, v1),
        exists|read: EnvelopeRead| envelope_read_of(text, read) && envelope_judged(read, public_key, today, v2),
    ensures
        v1 == v2,
{
    let r1 = choose|read: EnvelopeRead|
        envelope_read_of(text, read) && envelope_judged(read, public_key, today, v1);
    let r2 = choose|read: EnvelopeRead|
        envelope_read_of(text, read) && envelope_judged(read, public_key, today, v2);
    if r1 is Parts && r2 is Parts {
        let pv = json_get(serde_json_tree(text).unwrap(), "payload"@).unwrap();
        if r1->payload is Some && r2->payload is Some {
            lemma_read_payloads_agree(pv, r1->payload.unwrap(), r2->payload.unwrap(), today);
        }
        if r1->payload is Some && r2->payload is None {
            assert(payload_shaped(pv));
        }
        if r1->payload is None && r2->payload is Some {
            assert(payload_shaped(pv));
        }
    }
}

/// Validates a wrapped license JSON on the day `today`.
pub fn validate_license_on(license_json: &str, public_key: &PublicKey, today: Date) -> (r: ValidationOutcome)
    ensures
        exists|read: EnvelopeRead|
            envelope_read_of(license_json@, read) && envelope_judged(read, public_key@, today, r@),
{
    let read = read_envelope(license_json);
    assess_envelope(read, public_key, today)
}

/// Validates a wrapped license JSON `{"payload": ..., "signature": ...}` on
/// the current local date.
pub fn validate_license(license_json: &str, public_key: &PublicKey) -> (r: ValidationOutcome)
    ensures
        exists|read: EnvelopeRead, today: Date|
            envelope_read_of(license_json@, read) && envelope_judged(read, public_key@, today, r@),
{
    let today = Date::today();
    validate_license_on(license_json, public_key, today)
}

} // verus!
