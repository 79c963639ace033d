//! RSA keys and the cryptographic primitives a license rests on: SHA-256,
//! PKCS#1 v1.5 signatures, Base64.
//!
//! A key is modelled by its PKCS#1 PEM text: that is what the keypair files
//! hold, and every result below is a function of it.
use vstd::prelude::*;

use base64::engine::general_purpose::STANDARD as B64;
use base64::Engine;
use rsa::pkcs1::{DecodeRsaPrivateKey, DecodeRsaPublicKey, EncodeRsaPrivateKey, EncodeRsaPublicKey, LineEnding};
use rsa::pkcs1v15::Pkcs1v15Sign;
use rsa::{RsaPrivateKey, RsaPublicKey};
use sha2::{Digest, Sha256};

verus! {

#[verifier::external_type_specification]
#[verifier::external_body]
pub struct ExRsaPrivateKey(RsaPrivateKey);

#[verifier::external_type_specification]
#[verifier::external_body]
pub struct ExRsaPublicKey(RsaPublicKey);

/// Whether rsa's `RsaPrivateKey::from_pkcs1_pem` accepts a PEM text.
pub uninterp spec fn rsa_private_pem_valid(pem: Seq<char>) -> bool;

/// Whether rsa's `RsaPublicKey::from_pkcs1_pem` accepts a PEM text.
pub uninterp spec fn rsa_public_pem_valid(pem: Seq<char>) -> bool;

/// The PKCS#1 PEM text (LF line endings) of the public half of a private
/// key, as rsa's `RsaPublicKey::from` and `to_pkcs1_pem` produce it.
pub uninterp spec fn rsa_public_pem_of(private_pem: Seq<char>) -> Option<Seq<char>>;

/// The PKCS#1 v1.5 signature rsa's `RsaPrivateKey::sign` makes of a digest,
/// with the SHA-256 DigestInfo prefix (`prefixed`) or without.
pub uninterp spec fn rsa_pkcs1v15_signature(private_pem: Seq<char>, prefixed: bool, digest: Seq<u8>) -> Option<Seq<u8>>;

/// The bit length of the modulus of the key a private PEM text holds (the
/// `bits` of rsa's `PublicKeyParts::n`).
pub uninterp spec fn rsa_modulus_bits(private_pem: Seq<char>) -> nat;

/// The length in bytes of the modulus of the key a private PEM text holds
/// (rsa's `PublicKeyParts::size`: the bit length rounded up to whole bytes).
pub open spec fn rsa_modulus_bytes(private_pem: Seq<char>) -> nat {
    (rsa_modulus_bits(private_pem) + 7) / 8
}

/// Whether rsa's `RsaPublicKey::verify` with SHA-256 PKCS#1 v1.5 padding
/// accepts a signature of a digest.
pub uninterp spec fn rsa_pkcs1v15_accepts(public_pem: Seq<char>, digest: Seq<u8>, signature: Seq<u8>) -> bool;

/// The SHA-256 digest of a byte sequence (sha2's `Sha256::digest`).
pub uninterp spec fn sha256(data: Seq<u8>) -> Seq<u8>;

/// The character of a 6-bit value in the standard Base64 alphabet.
pub open spec fn base64_char(v: int) -> char {
    if v < 26 {
        (65 + v) as char
    } else if v < 52 {
        (71 + v) as char
    } else if v < 62 {
        (v - 4) as char
    } else if v == 62 {
        '+'
    } else {
        '/'
    }
}

/// The standard Base64 text of a byte sequence (base64's `STANDARD.encode`):
/// each three bytes become four characters, and a last one or two bytes
/// become two or three characters padded with `=` to four.
pub open spec fn base64_encode(data: Seq<u8>) -> Seq<char>
    decreases data.len(),
{
    if data.len() == 0 {
        Seq::empty()
    } else if data.len() == 1 {
        let a = data[0] as int;
        seq![base64_char(a / 4), base64_char((a % 4) * 16), '=', '=']
    } else if data.len() == 2 {
        let a = data[0] as int;
        let b = data[1] as int;
        seq![base64_char(a / 4), base64_char((a % 4) * 16 + b / 16), base64_char((b % 16) * 4), '=']
    } else {
        let a = data[0] as int;
        let b = data[1] as int;
        let c = data[2] as int;
        seq![base64_char(a / 4), base64_char((a % 4) * 16 + b / 16), base64_char((b % 16) * 4 + c / 64), base64_char(c % 64)]
            + base64_encode(data.subrange(3, data.len() as int))
    }
}

/// The bytes a standard Base64 text decodes to (base64's `STANDARD.decode`).
pub uninterp spec fn base64_decode(text: Seq<char>) -> Option<Seq<u8>>;

/// A private RSA key with the PKCS#1 PEM text it was read from.
pub struct PrivateKey {
    pem: String,
    key: RsaPrivateKey,
}

/// A public RSA key with its PKCS#1 PEM text.
pub struct PublicKey {
    pem: String,
    key: RsaPublicKey,
}

impl View for PrivateKey {
    type V = Seq<char>;

    closed spec fn view(&self) -> Seq<char> {
        self.pem@
    }
}

impl View for PublicKey {
    type V = Seq<char>;

    closed spec fn view(&self) -> Seq<char> {
        self.pem@
    }
}

impl PrivateKey {
    /// Reads a PKCS#1 PEM private key (rsa's `from_pkcs1_pem`); the error
    /// is rsa's message.
    #[verifier::external_body]
    pub fn from_pkcs1_pem(pem: &str) -> (r: Result<PrivateKey, String>)
        ensures
            r is Ok <==> rsa_private_pem_valid(pem@),
            r matches Ok(k) ==> k@ == pem@,
    {
        match RsaPrivateKey::from_pkcs1_pem(pem) {
            Ok(key) => Ok(PrivateKey { pem: pem.to_string(), key }),
            Err(e) => Err(e.to_string()),
        }
    }

    /// A fresh random key of `bits` bits (rsa's `RsaPrivateKey::new` with the
    /// thread-local generator of rand) with its PKCS#1 PEM text, LF line
    /// endings.  Which key comes out depends on chance.  rsa's generation
    /// fails only on its parameters: it draws primes until their product has
    /// `bits` bits and has a private exponent, and the key it builds then
    /// passes its own validation; two-prime keys always encode to PKCS#1.
    /// So for sizes from 1024 to 4096 bits (the largest modulus rsa accepts
    /// when it reads a public key) a key comes back, and its public half can
    /// be written.  Generation draws primes until their product has exactly
    /// `bits` bits, so the modulus of a key that comes back has that length.
    #[verifier::external_body]
    pub(crate) fn generate(bits: usize) -> (r: Option<PrivateKey>)
        ensures
            1024 <= bits <= 4096 ==> r is Some,
            r matches Some(k) ==> rsa_public_pem_of(k@) is Some,
            r matches Some(k) ==> rsa_modulus_bits(k@) == bits,
    {
        let key = RsaPrivateKey::new(&mut rand::thread_rng(), bits).ok()?;
        let pem = key.to_pkcs1_pem(LineEnding::LF).ok()?;
        Some(PrivateKey { pem: pem.to_string(), key })
    }

    /// The PKCS#1 PEM text of this key.
    pub fn pem(&self) -> (r: &str)
        ensures
            r@ == self@,
    {
        self.pem.as_str()
    }

    /// The public half of this key, with its PKCS#1 PEM text
    /// (`RsaPublicKey::from`, then `to_pkcs1_pem`).
    #[verifier::external_body]
    pub(crate) fn public_key(&self) -> (r: Option<PublicKey>)
        ensures
            r is Some <==> rsa_public_pem_of(self@) is Some,
            r matches Some(p) ==> rsa_public_pem_of(self@) == Some(p@),
    {
        let key = RsaPublicKey::from(&self.key);
        match key.to_pkcs1_pem(LineEnding::LF) {
            Ok(pem) => Some(PublicKey { pem, key }),
            Err(_) => None,
        }
    }

    /// Signs a digest with PKCS#1 v1.5 padding (rsa's `RsaPrivateKey::sign`,
    /// which uses no randomness), with the SHA-256 DigestInfo prefix when
    /// `prefixed`, without it otherwise.  The signature is left-padded to the
    /// length of the modulus.  Signing needs a digest of 32 bytes when
    /// prefixed, and room in the modulus for the padded digest: its length,
    /// the 19-byte DigestInfo prefix when prefixed, and 11 bytes of padding.
    /// That these suffice is not stated: rsa also refuses a result that its
    /// own check by the public exponent rejects, which a PEM text whose
    /// factors are not prime can give.
    #[verifier::external_body]
    pub(crate) fn sign_digest(&self, prefixed: bool, digest: &[u8]) -> (r: Option<Vec<u8>>)
        ensures
            r is Some <==> rsa_pkcs1v15_signature(self@, prefixed, digest@) is Some,
            r matches Some(s) ==> rsa_pkcs1v15_signature(self@, prefixed, digest@) == Some(s@),
            r matches Some(s) ==> s@.len() == rsa_modulus_bytes(self@),
            r is Some ==> rsa_modulus_bytes(self@) >= digest@.len() + (if prefixed { 19int } else { 0int }) + 11,
            r is Some && prefixed ==> digest@.len() == 32,
    {
        let padding = if prefixed { Pkcs1v15Sign::new::<Sha256>() } else { Pkcs1v15Sign::new_unprefixed() };
        self.key.sign(padding, digest).ok()
    }
}

impl PublicKey {
    /// Reads a PKCS#1 PEM public key (rsa's `from_pkcs1_pem`); the error is
    /// rsa's message.
    #[verifier::external_body]
    pub fn from_pkcs1_pem(pem: &str) -> (r: Result<PublicKey, String>)
        ensures
            r is Ok <==> rsa_public_pem_valid(pem@),
            r matches Ok(k) ==> k@ == pem@,
    {
        match RsaPublicKey::from_pkcs1_pem(pem) {
            Ok(key) => Ok(PublicKey { pem: pem.to_string(), key }),
            Err(e) => Err(e.to_string()),
        }
    }

    /// The PKCS#1 PEM text of this key.
    pub fn pem(&self) -> (r: &str)
        ensures
            r@ == self@,
    {
        self.pem.as_str()
    }

    /// Verifies a SHA-256 PKCS#1 v1.5 signature of a digest (rsa's
    /// `RsaPublicKey::verify`).  A signature that the matching private key
    /// made of the same digest is accepted: rsa's signing checks its own
    /// result against the public exponent before returning it.
    #[verifier::external_body]
    pub(crate) fn verify_digest(&self, digest: &[u8], signature: &[u8]) -> (r: bool)
        ensures
            r == rsa_pkcs1v15_accepts(self@, digest@, signature@),
            forall|private_pem: Seq<char>|
                rsa_public_pem_of(private_pem) == Some(self@)
                    && #[trigger] rsa_pkcs1v15_signature(private_pem, true, digest@) == Some(signature@)
                    ==> r,
    {
        self.key.verify(Pkcs1v15Sign::new::<Sha256>(), digest, signature).is_ok()
    }
}

/// The SHA-256 digest of some bytes (sha2's `Sha256::digest`): 32 bytes.
#[verifier::external_body]
pub(crate) fn sha256_digest(data: &[u8]) -> (r: Vec<u8>)
    ensures
        r@ == sha256(data@),
        r@.len() == 32,
{
    Sha256::digest(data).to_vec()
}

/// The standard Base64 text of some bytes (base64's `STANDARD.encode`).
#[verifier::external_body]
pub(crate) fn base64_encode_bytes(data: &[u8]) -> (r: String)
    ensures
        r@ == base64_encode(data@),
{
    B64.encode(data)
}

/// The bytes a standard Base64 text decodes to (base64's `STANDARD.decode`);
/// decoding gives back what encoding was given.
#[verifier::external_body]
pub(crate) fn base64_decode_text(text: &str) -> (r: Option<Vec<u8>>)
    ensures
        r is Some <==> base64_decode(text@) is Some,
        r matches Some(v) ==> base64_decode(text@) == Some(v@),
        forall|data: Seq<u8>| #[trigger] base64_encode(data) == text@ ==> r is Some && r.unwrap()@ == data,
{
    B64.decode(text).ok()
}

} // verus!
