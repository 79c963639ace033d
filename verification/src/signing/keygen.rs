//! Creating a signing keypair.
use vstd::prelude::*;

use crate::license::keys::{rsa_modulus_bits, rsa_public_pem_of, PrivateKey};

verus! {

/// A fresh keypair of `bits` bits as PKCS#1 PEM texts: the private key,
/// then its public half.  The key depends on chance; what holds of every
/// outcome is that the second text is the public half of the first, and the
/// modulus has exactly `bits` bits.  Keys of 1024 to 4096 bits are always
/// made.
pub fn generate_keypair_pems(bits: usize) -> (r: Option<(String, String)>)
    ensures
        1024 <= bits <= 4096 ==> r is Some,
        r matches Some((private_pem, public_pem)) ==> rsa_modulus_bits(private_pem@) == bits,
        r matches Some((private_pem, public_pem)) ==> rsa_public_pem_of(private_pem@) == Some(public_pem@),
{
    let key = PrivateKey::generate(bits)?;
    let public = key.public_key()?;
    Some((key.pem().to_string(), public.pem().to_string()))
}

} // verus!
