//! The signer the rest of the pipeline calls.
use vstd::prelude::*;

use crate::license::canonical::payload_json;
use crate::license::crypto::{payload_signature, sign_payload};
use crate::license::errors::CryptoError;
use crate::license::keys::{base64_encode, rsa_modulus_bytes, PrivateKey};
use crate::license::types::{LicensePayload, SignedLicense};

verus! {

/// Signs a payload: its canonical JSON and the Base64 PKCS#1 v1.5 signature
/// of that JSON's SHA-256 digest.
pub fn sign(payload: &LicensePayload, private_key: &PrivateKey) -> (r: Result<SignedLicense, CryptoError>)
    ensures
        r is Ok <==> payload_signature(private_key@, *payload) is Some,
        r matches Ok(s) ==> s.payload_json@ == payload_json(*payload)
            && s.signature@ == base64_encode(payload_signature(private_key@, *payload).unwrap())
            && payload_signature(private_key@, *payload).unwrap().len() == rsa_modulus_bytes(private_key@),
        r matches Err(e) ==> e is SignError,
        rsa_modulus_bytes(private_key@) < 62 ==> r is Err,
{
    sign_payload(payload, private_key)
}

} // verus!
