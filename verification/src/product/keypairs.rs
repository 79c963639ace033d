//! Keypair file locations for products.
use vstd::prelude::*;

use crate::license::keys::{rsa_private_pem_valid, rsa_public_pem_valid, PrivateKey, PublicKey};
use crate::text::{push_str, to_lowercase, unicode_lowercase};
use crate::util::helpers::{join_path, path_join};

verus! {

/// `<base lowercased><suffix>`.
pub open spec fn key_file_name(base: Seq<char>, suffix: Seq<char>) -> Seq<char> {
    unicode_lowercase(base) + suffix
}

/// The private and public key files of a keypair base name in a keypair
/// directory: `<dir>/<base lowercased>_prv.pem` and `..._pub.pem`.
pub fn resolve_keypair_paths(keypair_base: &str, keypair_dir: &str) -> (r: (String, String))
    ensures
        r.0@ == path_join(keypair_dir@, key_file_name(keypair_base@, "_prv.pem"@)),
        r.1@ == path_join(keypair_dir@, key_file_name(keypair_base@, "_pub.pem"@)),
{
    let mut private_name = to_lowercase(keypair_base);
    push_str(&mut private_name, "_prv.pem");
    let mut public_name = to_lowercase(keypair_base);
    push_str(&mut public_name, "_pub.pem");
    let private_path = join_path(keypair_dir, private_name.as_str());
    let public_path = join_path(keypair_dir, public_name.as_str());
    (private_path, public_path)
}

/// Why a keypair's PEM texts were refused: rsa's message for the private
/// or the public key.
pub enum KeypairError {
    InvalidPrivate(String),
    InvalidPublic(String),
}

/// Reads a keypair from its PKCS#1 PEM texts, the private key first.
pub fn decode_keypair(private_pem: &str, public_pem: &str) -> (r: Result<(PrivateKey, PublicKey), KeypairError>)
    ensures
        !rsa_private_pem_valid(private_pem@) ==> r matches Err(KeypairError::InvalidPrivate(_)),
        rsa_private_pem_valid(private_pem@) && !rsa_public_pem_valid(public_pem@) ==> r matches Err(
            KeypairError::InvalidPublic(_),
        ),
        r is Ok <==> rsa_private_pem_valid(private_pem@) && rsa_public_pem_valid(public_pem@),
        r matches Ok((k, p)) ==> k@ == private_pem@ && p@ == public_pem@,
{
    let private_key = match PrivateKey::from_pkcs1_pem(private_pem) {
        Ok(k) => k,
        Err(e) => return Err(KeypairError::InvalidPrivate(e)),
    };
    let public_key = match PublicKey::from_pkcs1_pem(public_pem) {
        Ok(k) => k,
        Err(e) => return Err(KeypairError::InvalidPublic(e)),
    };
    Ok((private_key, public_key))
}

} // verus!
