//! Generating a license from the rows of an application: the payload is
//! built, signed, and checked by validating the envelope it makes; and the
//! file it is written to.
use vstd::prelude::*;

use crate::license::canonical::payload_json;
use crate::license::crypto::{
    envelope_judged, envelope_read_of, law_envelope_verdict_is_unique, payload_signature, validate_license_on,
    EnvelopeRead,
};
use crate::license::errors::{CryptoError, PayloadError};
use crate::license::keys::{base64_encode, rsa_public_pem_of, PrivateKey};
use crate::license::payload::{build_payload, payload_built, rows_ok};
use crate::license::signer::sign;
use crate::license::types::{
    verdict_message, LicenseBundle, LicenseDecision, LicensePayload, SignedLicense, ValidityInfo, Verdict,
};
use crate::license::writer::{license_file_json, license_file_text};
use crate::util::datetime::Date;
use crate::text::{dec, push_dec, push_str};
use crate::util::helpers::{join_path, path_join};

verus! {

/// What stops a license from being generated once its rows are loaded.
pub enum GenerateError {
    /// The bundle holds no validity.
    MissingValidity,
    /// The payload could not be built from the rows.
    Payload(PayloadError),
    /// Signing failed.
    Crypto(CryptoError),
    /// The public half of the private key could not be written.
    PublicKey,
    /// The signed license did not validate; the message says why.
    Invalid(String),
}

/// Whether a signed license is the one the rows of a bundle give, signed
/// with the private key, with the validity.
pub open spec fn signed_from_rows(b: LicenseBundle, v: ValidityInfo, key: Seq<char>, s: SignedLicense) -> bool {
    exists|p: LicensePayload|
        #[trigger] payload_built(b.application, b.product, b.edition, b.customer, b.address, b.zipcode, v, p)
            && payload_signature(key, p) is Some
            && s.payload_json@ == payload_json(p)
            && s.signature@ == base64_encode(payload_signature(key, p).unwrap())
}

/// Whether validating the file of a signed license under a public key on
/// the day `today` gives a verdict.
pub open spec fn file_judged_on(s: SignedLicense, public_key: Seq<char>, today: Date, v: Verdict) -> bool {
    exists|read: EnvelopeRead|
        envelope_read_of(license_file_text(s), read) && envelope_judged(read, public_key, today, v)
}

/// Whether validating the file of a signed license under a public key
/// gave a verdict, on some day.
pub open spec fn file_judged(s: SignedLicense, public_key: Seq<char>, v: Verdict) -> bool {
    exists|today: Date| #[trigger] file_judged_on(s, public_key, today, v)
}

/// A license file has one verdict under a public key on a given day:
/// whatever verdicts its validation is said to give there are equal.
pub proof fn law_file_verdict_is_unique(s: SignedLicense, public_key: Seq<char>, today: Date, v1: Verdict, v2: Verdict)
    requires
        file_judged_on(s, public_key, today, v1),
        file_judged_on(s, public_key, today, v2),
    ensures
        v1 == v2,
{
    law_envelope_verdict_is_unique(license_file_text(s), public_key, today, v1, v2);
}

/// The payloads the same rows give have the same canonical text, and so
/// the same signature.
pub proof fn lemma_built_payloads_agree(b: LicenseBundle, v: ValidityInfo, p: LicensePayload, q: LicensePayload)
    requires
        payload_built(b.application, b.product, b.edition, b.customer, b.address, b.zipcode, v, p),
        payload_built(b.application, b.product, b.edition, b.customer, b.address, b.zipcode, v, q),
    ensures
        payload_json(p) == payload_json(q),
{
    assert(p.customer.address.line1@ == q.customer.address.line1@);
}

/// Builds the payload of a bundle with its validity, signs it, and checks
/// the license by validating its file under the key's public half on the
/// day `today`: the license is returned exactly when that validation finds
/// it valid on that day.
pub fn sign_bundle_on(bundle: &LicenseBundle, private_key: &PrivateKey, today: Date) -> (r: Result<SignedLicense, GenerateError>)
    ensures
        match bundle.validity {
            None => r matches Err(GenerateError::MissingValidity),
            Some(v) => {
                &&& (r matches Err(GenerateError::Payload(_))) <==> !rows_ok(bundle.address, bundle.edition, bundle.product)
                &&& !(r matches Err(GenerateError::MissingValidity))
                &&& forall|p: LicensePayload|
                    #[trigger] payload_built(bundle.application, bundle.product, bundle.edition, bundle.customer,
                        bundle.address, bundle.zipcode, v, p) ==> {
                        &&& (r matches Err(GenerateError::Crypto(_))) <==> payload_signature(private_key@, p) is None
                        &&& (r matches Err(GenerateError::PublicKey)) <==> (payload_signature(private_key@, p) is Some
                            && rsa_public_pem_of(private_key@) is None)
                    }
                &&& r matches Err(GenerateError::Invalid(m)) ==> exists|s: SignedLicense, verdict: Verdict|
                    signed_from_rows(*bundle, v, private_key@, s)
                        && file_judged_on(s, rsa_public_pem_of(private_key@).unwrap(), today, verdict)
                        && verdict_message(verdict) == Some(m@)
                &&& r matches Ok(s) ==> signed_from_rows(*bundle, v, private_key@, s)
                    && file_judged_on(s, rsa_public_pem_of(private_key@).unwrap(), today, Verdict::Valid)
            },
        },
{
    let validity = match &bundle.validity {
        Some(v) => ValidityInfo {
            issued: v.issued,
            expires: v.expires,
            valid_major: v.valid_major,
            validity_value: v.validity_value,
            validity_unit: v.validity_unit,
        },
        None => return Err(GenerateError::MissingValidity),
    };
    let payload = match build_payload(
        &bundle.application,
        &bundle.product,
        &bundle.edition,
        &bundle.customer,
        &bundle.address,
        &bundle.zipcode,
        validity,
    ) {
        Ok(p) => p,
        Err(e) => return Err(GenerateError::Payload(e)),
    };
    let ghost v = bundle.validity.unwrap();
    assert(validity == v);
    let signed = match sign(&payload, private_key) {
        Ok(s) => s,
        Err(e) => {
            proof {
                assert forall|p: LicensePayload|
                    #[trigger] payload_built(bundle.application, bundle.product, bundle.edition, bundle.customer,
                        bundle.address, bundle.zipcode, v, p) implies payload_signature(private_key@, p) is None by {
                    lemma_built_payloads_agree(*bundle, v, p, payload);
                }
            }
            return Err(GenerateError::Crypto(e));
        },
    };
    proof {
        assert forall|p: LicensePayload|
            #[trigger] payload_built(bundle.application, bundle.product, bundle.edition, bundle.customer,
                bundle.address, bundle.zipcode, v, p) implies payload_signature(private_key@, p) is Some by {
            lemma_built_payloads_agree(*bundle, v, p, payload);
        }
    }
    assert(signed_from_rows(*bundle, validity, private_key@, signed));
    match check_signed(&signed, private_key, today) {
        Ok(()) => Ok(signed),
        Err(e) => Err(e),
    }
}

/// Builds the payload of a bundle with its validity, signs it, and checks
/// the license by validating its file under the key's public half, on the
/// current local date (see `sign_bundle_on`).
pub fn sign_bundle(bundle: &LicenseBundle, private_key: &PrivateKey) -> (r: Result<SignedLicense, GenerateError>)
    ensures
        match bundle.validity {
            None => r matches Err(GenerateError::MissingValidity),
            Some(v) => {
                &&& (r matches Err(GenerateError::Payload(_))) <==> !rows_ok(bundle.address, bundle.edition, bundle.product)
                &&& !(r matches Err(GenerateError::MissingValidity))
                &&& forall|p: LicensePayload|
                    #[trigger] payload_built(bundle.application, bundle.product, bundle.edition, bundle.customer,
                        bundle.address, bundle.zipcode, v, p) ==> {
                        &&& (r matches Err(GenerateError::Crypto(_))) <==> payload_signature(private_key@, p) is None
                        &&& (r matches Err(GenerateError::PublicKey)) <==> (payload_signature(private_key@, p) is Some
                            && rsa_public_pem_of(private_key@) is None)
                    }
                &&& r matches Err(GenerateError::Invalid(m)) ==> exists|s: SignedLicense, verdict: Verdict|
                    signed_from_rows(*bundle, v, private_key@, s)
                        && file_judged(s, rsa_public_pem_of(private_key@).unwrap(), verdict)
                        && verdict_message(verdict) == Some(m@)
                &&& r matches Ok(s) ==> signed_from_rows(*bundle, v, private_key@, s)
                    && file_judged(s, rsa_public_pem_of(private_key@).unwrap(), Verdict::Valid)
            },
        },
{
    let today = Date::today();
    let r = sign_bundle_on(bundle, private_key, today);
    proof {
        if bundle.validity is Some && rsa_public_pem_of(private_key@) is Some {
            let pk = rsa_public_pem_of(private_key@).unwrap();
            let v = bundle.validity.unwrap();
            if r is Ok {
                let s = r->Ok_0;
                assert(file_judged_on(s, pk, today, Verdict::Valid));
                assert(file_judged(s, pk, Verdict::Valid));
            }
            if r is Err && r->Err_0 is Invalid {
                let m = r->Err_0->Invalid_0;
                let (s, verdict) = choose|s: SignedLicense, verdict: Verdict|
                    signed_from_rows(*bundle, v, private_key@, s)
                        && file_judged_on(s, pk, today, verdict)
                        && verdict_message(verdict) == Some(m@);
                assert(file_judged(s, pk, verdict));
            }
        }
    }
    r
}

/// Validates the file of a signed license under the public half of the key
/// that signed it.
fn check_signed(signed: &SignedLicense, private_key: &PrivateKey, today: Date) -> (r: Result<(), GenerateError>)
    ensures
        r matches Err(GenerateError::PublicKey) <==> rsa_public_pem_of(private_key@) is None,
        r matches Err(GenerateError::Invalid(m)) ==> exists|verdict: Verdict|
            file_judged_on(*signed, rsa_public_pem_of(private_key@).unwrap(), today, verdict)
                && verdict_message(verdict) == Some(m@),
        r is Ok ==> file_judged_on(*signed, rsa_public_pem_of(private_key@).unwrap(), today, Verdict::Valid),
        r is Ok || r matches Err(GenerateError::PublicKey) || r matches Err(GenerateError::Invalid(_)),
{
    let public_key = match private_key.public_key() {
        Some(k) => k,
        None => return Err(GenerateError::PublicKey),
    };
    let text = license_file_json(signed);
    let outcome = validate_license_on(text.as_str(), &public_key, today);
    let ghost verdict = outcome@;
    assert(file_judged_on(*signed, public_key@, today, verdict));
    match outcome.into_anyhow() {
        Ok(()) => Ok(()),
        Err(m) => Err(GenerateError::Invalid(m)),
    }
}

/// The license file name: `license_<id>.lic` for a reused license,
/// `license_new.lic` for a new one.
pub open spec fn license_file_name(decision: LicenseDecision) -> Seq<char> {
    match decision {
        LicenseDecision::ReuseExisting(lic) => "license_"@ + dec(lic.id as nat) + ".lic"@,
        LicenseDecision::IssueNew => "license_new.lic"@,
    }
}

/// The path of the license file in the output directory.
pub fn license_path(output_dir: &str, decision: &LicenseDecision) -> (r: String)
    ensures
        r@ == path_join(output_dir@, license_file_name(*decision)),
{
    let mut name = String::new();
    match decision {
        LicenseDecision::ReuseExisting(lic) => {
            push_str(&mut name, "license_");
            push_dec(&mut name, lic.id);
            push_str(&mut name, ".lic");
        },
        LicenseDecision::IssueNew => {
            push_str(&mut name, "license_new.lic");
        },
    }
    join_path(output_dir, name.as_str())
}

} // verus!
