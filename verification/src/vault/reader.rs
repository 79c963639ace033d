//! Decrypting vault files sealed with AES-256-CBC under a key and IV derived
//! from the password with the fixed salt `ansible`.
use vstd::prelude::*;
use vstd::utf8::encode_utf8;

use crate::text::{chars_of, string_of, trim, trim_chars};
use crate::vault::cipher::{
    aes256_cbc_decrypt, aes256_cbc_pkcs7_decrypt, derive_key, hex_decode, hex_decoded,
    pbkdf2_sha256, utf8_lossy, utf8_lossy_text,
};
use crate::vault::decryptor::{after_first_line, first_line, join_lines, starts_with, vault_header};

verus! {

/// Why such a vault could not be read.
pub enum VaultError {
    ReadError(String),
    HeaderError,
    DecryptError,
    YamlError(String),
}

/// The salt this vault format derives its key with.
pub open spec fn ansible_salt() -> Seq<u8> {
    seq![97u8, 110u8, 115u8, 105u8, 98u8, 108u8, 101u8]
}

/// The plaintext of a CBC vault text under a password; `None` for a bad
/// header (the first component) or a failed decryption (the second).
pub open spec fn cbc_vault_plaintext(raw: Seq<char>, password: Seq<char>) -> Result<Seq<char>, bool> {
    match first_line(raw) {
        None => Err(true),
        Some(header) => if !starts_with(header, vault_header()) {
            Err(true)
        } else {
            match hex_decoded(encode_utf8(join_lines(after_first_line(raw)))) {
                None => Err(false),
                Some(ciphertext) => {
                    let key_iv = pbkdf2_sha256(encode_utf8(trim(password)), ansible_salt(), 10000, 48);
                    match aes256_cbc_pkcs7_decrypt(key_iv.subrange(0, 32), key_iv.subrange(32, 48), ciphertext) {
                        Some(plain) => Ok(utf8_lossy(plain)),
                        None => Err(false),
                    }
                },
            }
        },
    }
}

/// Decrypts a CBC vault text with a password (surrounding white space of the
/// password is ignored) and returns the plaintext.
pub fn load_vault(raw: &str, password: &str) -> (r: Result<String, VaultError>)
    ensures
        match cbc_vault_plaintext(raw@, password@) {
            Ok(text) => r matches Ok(t) && t@ == text,
            Err(true) => r is Err && r->Err_0 is HeaderError,
            Err(false) => r is Err && r->Err_0 is DecryptError,
        },
{
    let pw_chars = chars_of(password);
    let pw_trimmed = trim_chars(pw_chars.as_slice());
    let pw = string_of(pw_trimmed.as_slice());
    let raw_chars = chars_of(raw);
    let (header, rest) = match crate::vault::decryptor::split_first_line_of(raw_chars.as_slice()) {
        Some(p) => p,
        None => return Err(VaultError::HeaderError),
    };
    let prefix = chars_of("$ANSIBLE_VAULT;1.1;AES256");
    if !crate::vault::decryptor::starts_with_of(header.as_slice(), prefix.as_slice()) {
        return Err(VaultError::HeaderError);
    }
    let joined = crate::vault::decryptor::join_lines_chars(rest.as_slice());
    let hex_ciphertext = string_of(joined.as_slice());
    let ciphertext = match hex_decode(hex_ciphertext.as_str().as_bytes()) {
        Some(v) => v,
        None => return Err(VaultError::DecryptError),
    };
    let mut salt: Vec<u8> = Vec::new();
    salt.push(97u8);
    salt.push(110u8);
    salt.push(115u8);
    salt.push(105u8);
    salt.push(98u8);
    salt.push(108u8);
    salt.push(101u8);
    assert(salt@ =~= ansible_salt());
    let key_iv = derive_key(pw.as_str().as_bytes(), salt.as_slice(), 10000, 48);
    let key = &key_iv.as_slice()[0..32];
    let iv = &key_iv.as_slice()[32..48];
    let plain = match aes256_cbc_decrypt(key, iv, ciphertext.as_slice()) {
        Some(p) => p,
        None => return Err(VaultError::DecryptError),
    };
    Ok(utf8_lossy_text(plain.as_slice()))
}

} // verus!
