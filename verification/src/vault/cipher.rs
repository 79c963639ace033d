//! The primitives an Ansible vault is sealed with: hex text, PBKDF2 key
//! derivation, AES-256 in CTR and CBC modes, UTF-8 text.
use vstd::prelude::*;
use vstd::utf8::{decode_utf8, valid_utf8};

use aes::cipher::{BlockDecryptMut, KeyIvInit, StreamCipher};
use aes::Aes256;
use block_padding::Pkcs7;
use sha2::Sha256;

verus! {

/// The value of a hexadecimal digit byte (either case).
pub open spec fn hex_value(b: u8) -> Option<u8> {
    if 48 <= b <= 57 {
        Some((b - 48) as u8)
    } else if 97 <= b <= 102 {
        Some((b - 87) as u8)
    } else if 65 <= b <= 70 {
        Some((b - 55) as u8)
    } else {
        None
    }
}

/// The bytes a hexadecimal text names: an even number of hex digits, two per
/// byte, high nibble first.
pub open spec fn hex_decoded(s: Seq<u8>) -> Option<Seq<u8>>
    decreases s.len(),
{
    if s.len() % 2 != 0 {
        None
    } else if s.len() == 0 {
        Some(Seq::empty())
    } else {
        match (hex_value(s[0]), hex_value(s[1]), hex_decoded(s.subrange(2, s.len() as int))) {
            (Some(h), Some(l), Some(rest)) => Some(seq![(h * 16 + l) as u8] + rest),
            _ => None,
        }
    }
}

/// hex's `decode`: fails on an odd length or a byte that is not a hex digit.
#[verifier::external_body]
pub(crate) fn hex_decode(s: &[u8]) -> (r: Option<Vec<u8>>)
    ensures
        r is Some <==> hex_decoded(s@) is Some,
        r matches Some(v) ==> hex_decoded(s@) == Some(v@),
{
    hex::decode(s).ok()
}

/// What pbkdf2's `pbkdf2_hmac::<Sha256>` fills an output buffer of `len`
/// bytes with.
pub uninterp spec fn pbkdf2_sha256(password: Seq<u8>, salt: Seq<u8>, rounds: u32, len: nat) -> Seq<u8>;

/// PBKDF2-HMAC-SHA256 with `rounds` iterations, `len` output bytes.
#[verifier::external_body]
pub(crate) fn derive_key(password: &[u8], salt: &[u8], rounds: u32, len: usize) -> (r: Vec<u8>)
    ensures
        r@ == pbkdf2_sha256(password@, salt@, rounds, len as nat),
        r@.len() == len,
{
    let mut out = vec![0u8; len];
    pbkdf2::pbkdf2_hmac::<Sha256>(password, salt, rounds, &mut out);
    out
}

/// What AES-256 in big-endian 128-bit counter mode (ctr's `Ctr128BE`) makes
/// of data with a key and initial counter block; `None` for a key or counter
/// block of the wrong length.
pub uninterp spec fn aes256_ctr(key: Seq<u8>, iv: Seq<u8>, data: Seq<u8>) -> Option<Seq<u8>>;

/// Applies the AES-256-CTR keystream to data (`new_from_slices`, then
/// `apply_keystream`).  A 32-byte key and 16-byte block are accepted, and the
/// result is as long as the data.
#[verifier::external_body]
pub(crate) fn aes256_ctr_apply(key: &[u8], iv: &[u8], data: &[u8]) -> (r: Option<Vec<u8>>)
    ensures
        r is Some <==> aes256_ctr(key@, iv@, data@) is Some,
        r matches Some(v) ==> aes256_ctr(key@, iv@, data@) == Some(v@) && v@.len() == data@.len(),
        key@.len() == 32 && iv@.len() == 16 ==> r is Some,
{
    let mut buf = data.to_vec();
    match ctr::Ctr128BE::<Aes256>::new_from_slices(key, iv) {
        Ok(mut cipher) => {
            cipher.apply_keystream(&mut buf);
            Some(buf)
        },
        Err(_) => None,
    }
}

/// What AES-256-CBC decryption with PKCS#7 unpadding (cbc's `Decryptor`,
/// `decrypt_padded_mut::<Pkcs7>`) makes of data; `None` where the key or IV
/// has the wrong length, the data is not whole blocks, or the padding is bad.
pub uninterp spec fn aes256_cbc_pkcs7_decrypt(key: Seq<u8>, iv: Seq<u8>, data: Seq<u8>) -> Option<Seq<u8>>;

/// AES-256-CBC decryption with PKCS#7 unpadding.
#[verifier::external_body]
pub(crate) fn aes256_cbc_decrypt(key: &[u8], iv: &[u8], data: &[u8]) -> (r: Option<Vec<u8>>)
    ensures
        r is Some <==> aes256_cbc_pkcs7_decrypt(key@, iv@, data@) is Some,
        r matches Some(v) ==> aes256_cbc_pkcs7_decrypt(key@, iv@, data@) == Some(v@),
{
    let mut buf = data.to_vec();
    match cbc::Decryptor::<Aes256>::new_from_slices(key, iv) {
        Ok(cipher) => match cipher.decrypt_padded_mut::<Pkcs7>(&mut buf) {
            Ok(plain) => Some(plain.to_vec()),
            Err(_) => None,
        },
        Err(_) => None,
    }
}

/// Whether bytes are valid UTF-8 (`std::str::from_utf8` succeeds exactly
/// then).
#[verifier::external_body]
pub(crate) fn utf8_valid(bytes: &[u8]) -> (r: bool)
    ensures
        r == valid_utf8(bytes@),
{
    std::str::from_utf8(bytes).is_ok()
}

/// The text `String::from_utf8_lossy` makes of some bytes.
pub uninterp spec fn utf8_lossy(bytes: Seq<u8>) -> Seq<char>;

/// `String::from_utf8_lossy`: valid UTF-8 is decoded as it is; invalid
/// sequences become U+FFFD.
#[verifier::external_body]
pub(crate) fn utf8_lossy_text(bytes: &[u8]) -> (r: String)
    ensures
        r@ == utf8_lossy(bytes@),
        valid_utf8(bytes@) ==> r@ == decode_utf8(bytes@),
{
    String::from_utf8_lossy(bytes).into_owned()
}

} // verus!
