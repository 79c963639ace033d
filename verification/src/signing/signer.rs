//! Signing arbitrary messages with a PEM private key.
use vstd::prelude::*;

use crate::license::keys::{
    base64_encode, base64_encode_bytes, rsa_modulus_bytes, rsa_pkcs1v15_signature, rsa_private_pem_valid, sha256,
    sha256_digest, PrivateKey,
};

verus! {

/// Why a message could not be signed.
pub enum SignMessageError {
    /// rsa refused the PEM text; its message.
    InvalidKey(String),
    /// rsa refused to sign.
    SigningFailed,
}

/// The Base64 signature of a message: the raw PKCS#1 v1.5 signature (no
/// DigestInfo prefix) of its SHA-256 digest under the PEM key.
pub open spec fn message_signature(private_key_pem: Seq<char>, message: Seq<u8>) -> Option<Seq<char>> {
    match rsa_pkcs1v15_signature(private_key_pem, false, sha256(message)) {
        Some(sig) => Some(base64_encode(sig)),
        None => None,
    }
}

/// Signs a message with a PKCS#1 PEM private key.
pub fn sign_message(private_key_pem: &str, message: &[u8]) -> (r: Result<String, SignMessageError>)
    ensures
        !rsa_private_pem_valid(private_key_pem@) ==> (r matches Err(e) && e is InvalidKey),
        rsa_private_pem_valid(private_key_pem@) ==> match message_signature(private_key_pem@, message@) {
            Some(s) => r matches Ok(t) && t@ == s,
            None => r matches Err(e) && e is SigningFailed,
        },
        r is Ok ==> rsa_pkcs1v15_signature(private_key_pem@, false, sha256(message@)).unwrap().len()
            == rsa_modulus_bytes(private_key_pem@),
        rsa_modulus_bytes(private_key_pem@) < 43 ==> r is Err,
{
    let key = match PrivateKey::from_pkcs1_pem(private_key_pem) {
        Ok(k) => k,
        Err(e) => return Err(SignMessageError::InvalidKey(e)),
    };
    let digest = sha256_digest(message);
    match key.sign_digest(false, digest.as_slice()) {
        Some(sig) => Ok(base64_encode_bytes(sig.as_slice())),
        None => Err(SignMessageError::SigningFailed),
    }
}

} // verus!
