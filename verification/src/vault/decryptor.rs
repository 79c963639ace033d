//! Decrypting Ansible vault 1.1 files (AES-256).
//!
//! The vault text is a header line `$ANSIBLE_VAULT;1.1;AES256` followed by
//! hex lines; joined and hex-decoded they give three newline-separated hex
//! parts: the salt, the HMAC, and the ciphertext.  PBKDF2-HMAC-SHA256
//! (10 000 rounds) derives 64 bytes from the password and salt; the first 32
//! are the AES key.  The ciphertext's first 16 bytes are the counter block,
//! and AES-256-CTR over the rest gives the plaintext.
use vstd::prelude::*;
use vstd::utf8::{encode_utf8, valid_utf8};

use crate::text::{chars_of, string_of, trim, trim_chars};
use crate::vault::cipher::{
    aes256_ctr, aes256_ctr_apply, derive_key, hex_decode, hex_decoded, pbkdf2_sha256, utf8_lossy,
    utf8_lossy_text, utf8_valid,
};
use crate::vault::types::{VaultError, VaultFailure};

verus! {

/// The first index at or after `from` holding `x`.
pub open spec fn index_of_from<T>(s: Seq<T>, x: T, from: int) -> Option<int>
    decreases s.len() - from,
{
    if from < 0 || from >= s.len() {
        None
    } else if s[from] == x {
        Some(from)
    } else {
        index_of_from(s, x, from + 1)
    }
}

proof fn lemma_index_of_from<T>(s: Seq<T>, x: T, from: int)
    requires
        0 <= from,
    ensures
        index_of_from(s, x, from) matches Some(i) ==> from <= i < s.len() && s[i] == x
            && forall|j: int| from <= j < i ==> s[j] != x,
        index_of_from(s, x, from) is None ==> forall|j: int| from <= j < s.len() ==> s[j] != x,
    decreases s.len() - from,
{
    if from < s.len() && s[from] != x {
        lemma_index_of_from(s, x, from + 1);
    }
}

/// The first index at or after `from` holding the character `x`.
fn find_char(s: &[char], x: char, from: usize) -> (r: Option<usize>)
    ensures
        r matches Some(i) ==> index_of_from(s@, x, from as int) == Some(i as int),
        r is None ==> index_of_from(s@, x, from as int) is None,
{
    let mut i = from;
    while i < s.len()
        invariant
            from <= i,
            index_of_from(s@, x, from as int) == index_of_from(s@, x, i as int),
        decreases s@.len() - i,
    {
        if s[i] == x {
            return Some(i);
        }
        i = i + 1;
    }
    None
}

/// The first index at or after `from` holding the byte `x`.
fn find_byte(s: &[u8], x: u8, from: usize) -> (r: Option<usize>)
    ensures
        r matches Some(i) ==> index_of_from(s@, x, from as int) == Some(i as int),
        r is None ==> index_of_from(s@, x, from as int) is None,
{
    let mut i = from;
    while i < s.len()
        invariant
            from <= i,
            index_of_from(s@, x, from as int) == index_of_from(s@, x, i as int),
        decreases s@.len() - i,
    {
        if s[i] == x {
            return Some(i);
        }
        i = i + 1;
    }
    None
}

/// The first line of a text as `str::lines` gives it: up to the first line
/// feed, without a carriage return just before it; `None` for an empty text.
pub open spec fn first_line(s: Seq<char>) -> Option<Seq<char>> {
    if s.len() == 0 {
        None
    } else {
        match index_of_from(s, '\n', 0) {
            None => Some(s),
            Some(i) => {
                let line = s.subrange(0, i);
                if line.len() > 0 && line.last() == '\r' {
                    Some(line.drop_last())
                } else {
                    Some(line)
                }
            },
        }
    }
}

/// What follows the first line feed of a text (nothing if it has none).
pub open spec fn after_first_line(s: Seq<char>) -> Seq<char> {
    match index_of_from(s, '\n', 0) {
        None => Seq::empty(),
        Some(i) => s.subrange(i + 1, s.len() as int),
    }
}

/// The lines of a text joined with nothing between them
/// (`lines().collect::<Vec<_>>().join("")`): each line feed, and a carriage
/// return just before one, removed.
pub open spec fn join_lines(s: Seq<char>) -> Seq<char>
    decreases s.len(),
{
    if s.len() == 0 {
        s
    } else if s.len() >= 2 && s[0] == '\r' && s[1] == '\n' {
        join_lines(s.subrange(2, s.len() as int))
    } else if s[0] == '\n' {
        join_lines(s.drop_first())
    } else {
        seq![s[0]] + join_lines(s.drop_first())
    }
}

/// Whether a text starts with a prefix.
pub open spec fn starts_with(s: Seq<char>, p: Seq<char>) -> bool {
    p.len() <= s.len() && s.subrange(0, p.len() as int) == p
}

/// The header every vault 1.1 AES-256 file starts with.
pub open spec fn vault_header() -> Seq<char> {
    "$ANSIBLE_VAULT;1.1;AES256"@
}

/// The first three newline-separated parts of a byte sequence
/// (`split(|b| *b == b'\n')`), if it has at least three.
pub open spec fn three_parts(v: Seq<u8>) -> Option<(Seq<u8>, Seq<u8>, Seq<u8>)> {
    match index_of_from(v, 10u8, 0) {
        None => None,
        Some(i1) => match index_of_from(v, 10u8, i1 + 1) {
            None => None,
            Some(i2) => {
                let end = match index_of_from(v, 10u8, i2 + 1) {
                    Some(i3) => i3,
                    None => v.len() as int,
                };
                Some((v.subrange(0, i1), v.subrange(i1 + 1, i2), v.subrange(i2 + 1, end)))
            },
        },
    }
}

/// The plaintext of a vault text under a password, or why there is none.
pub open spec fn vault_plaintext(raw: Seq<char>, password: Seq<char>) -> Result<Seq<char>, VaultFailure> {
    match first_line(raw) {
        None => Err(VaultFailure::HeaderError),
        Some(header) => if !starts_with(header, vault_header()) {
            Err(VaultFailure::HeaderError)
        } else {
            let body = trim(join_lines(after_first_line(raw)));
            match hex_decoded(encode_utf8(body)) {
                None => Err(VaultFailure::HexDecodeError("vault body"@)),
                Some(vaulttext) => match three_parts(vaulttext) {
                    None => Err(VaultFailure::CipherError("vault body missing salt/hmac/ciphertext parts"@)),
                    Some((salt_hex, hmac_hex, ciphertext_hex)) => match hex_decoded(salt_hex) {
                        None => Err(VaultFailure::HexDecodeError("salt"@)),
                        Some(salt) => match hex_decoded(ciphertext_hex) {
                            None => Err(VaultFailure::HexDecodeError("ciphertext"@)),
                            Some(ciphertext) => if !valid_utf8(hmac_hex) {
                                Err(VaultFailure::CipherError("hmac line not valid UTF-8"@))
                            } else if ciphertext.len() < 16 {
                                Err(VaultFailure::CipherError("ciphertext shorter than IV"@))
                            } else {
                                let derived = pbkdf2_sha256(encode_utf8(trim(password)), salt, 10000, 64);
                                match aes256_ctr(
                                    derived.subrange(0, 32),
                                    ciphertext.subrange(0, 16),
                                    ciphertext.subrange(16, ciphertext.len() as int),
                                ) {
                                    Some(plain) => Ok(utf8_lossy(plain)),
                                    None => Err(VaultFailure::CipherError("invalid key/iv length"@)),
                                }
                            },
                        },
                    },
                },
            }
        },
    }
}

/// Whether a text starts with a prefix.
pub fn starts_with_of(s: &[char], p: &[char]) -> (r: bool)
    ensures
        r == starts_with(s@, p@),
{
    if p.len() > s.len() {
        return false;
    }
    let mut i: usize = 0;
    while i < p.len()
        invariant
            p@.len() <= s@.len(),
            i <= p@.len(),
            forall|j: int| 0 <= j < i ==> s@[j] == p@[j],
        decreases p@.len() - i,
    {
        if s[i] != p[i] {
            assert(s@.subrange(0, p@.len() as int)[i as int] != p@[i as int]);
            return false;
        }
        i = i + 1;
    }
    assert(s@.subrange(0, p@.len() as int) =~= p@);
    true
}

/// The lines of a text joined with nothing between them.
pub fn join_lines_chars(s: &[char]) -> (r: Vec<char>)
    ensures
        r@ == join_lines(s@),
{
    let n = s.len();
    let mut r: Vec<char> = Vec::new();
    let mut i: usize = 0;
    assert(s@.subrange(0, n as int) =~= s@);
    while i < n
        invariant
            i <= n == s@.len(),
            join_lines(s@) == r@ + join_lines(s@.subrange(i as int, n as int)),
        decreases n - i,
    {
        let ghost rest = s@.subrange(i as int, n as int);
        if i + 1 < n && s[i] == '\r' && s[i + 1] == '\n' {
            assert(rest.subrange(2, rest.len() as int) =~= s@.subrange(i + 2, n as int));
            i = i + 2;
        } else if s[i] == '\n' {
            assert(rest.drop_first() =~= s@.subrange(i + 1, n as int));
            i = i + 1;
        } else {
            assert(rest.drop_first() =~= s@.subrange(i + 1, n as int));
            r.push(s[i]);
            i = i + 1;
            assert(join_lines(s@) =~= r@ + join_lines(s@.subrange(i as int, n as int)));
        }
    }
    assert(join_lines(s@.subrange(n as int, n as int)) =~= Seq::<char>::empty());
    r
}

/// The chars of a sub-range.
fn sub_chars(s: &[char], lo: usize, hi: usize) -> (r: Vec<char>)
    requires
        lo <= hi <= s@.len(),
    ensures
        r@ == s@.subrange(lo as int, hi as int),
{
    let mut r: Vec<char> = Vec::new();
    let mut i = lo;
    while i < hi
        invariant
            lo <= i <= hi <= s@.len(),
            r@ == s@.subrange(lo as int, i as int),
        decreases hi - i,
    {
        r.push(s[i]);
        i = i + 1;
    }
    r
}

/// The first line of a text and what follows its line feed.
pub fn split_first_line_of(s: &[char]) -> (r: Option<(Vec<char>, Vec<char>)>)
    ensures
        r is None <==> first_line(s@) is None,
        r matches Some((h, rest)) ==> first_line(s@) == Some(h@) && rest@ == after_first_line(s@),
{
    let n = s.len();
    if n == 0 {
        return None;
    }
    match find_char(s, '\n', 0) {
        None => {
            let h = sub_chars(s, 0, n);
            assert(h@ =~= s@);
            Some((h, Vec::new()))
        },
        Some(i) => {
            proof {
                lemma_index_of_from(s@, '\n', 0);
            }
            let end = if i > 0 && s[i - 1] == '\r' { i - 1 } else { i };
            let h = sub_chars(s, 0, end);
            let rest = sub_chars(s, i + 1, n);
            if i > 0 {
                assert(s@.subrange(0, i as int).drop_last() =~= s@.subrange(0, (i - 1) as int));
            }
            Some((h, rest))
        },
    }
}

/// The first three newline-separated parts of a byte sequence.
fn split_three(v: &[u8]) -> (r: Option<(&[u8], &[u8], &[u8])>)
    ensures
        r is None <==> three_parts(v@) is None,
        r matches Some((a, b, c)) ==> three_parts(v@) == Some((a@, b@, c@)),
{
    proof {
        lemma_index_of_from(v@, 10u8, 0);
    }
    let i1 = match find_byte(v, 10u8, 0) {
        Some(i) => i,
        None => return None,
    };
    let n = v.len();
    assert(i1 < n);
    proof {
        lemma_index_of_from(v@, 10u8, i1 + 1);
    }
    let i2 = match find_byte(v, 10u8, i1 + 1) {
        Some(i) => i,
        None => return None,
    };
    assert(i2 < n);
    proof {
        lemma_index_of_from(v@, 10u8, i2 + 1);
    }
    let end = match find_byte(v, 10u8, i2 + 1) {
        Some(i) => i,
        None => v.len(),
    };
    Some((&v[0..i1], &v[i1 + 1..i2], &v[i2 + 1..end]))
}

/// Decrypts a vault text with a password (surrounding white space of the
/// password is ignored) and returns the plaintext.
pub fn load_vault(raw: &str, password: &str) -> (r: Result<String, VaultError>)
    ensures
        match vault_plaintext(raw@, password@) {
            Ok(text) => r matches Ok(t) && t@ == text,
            Err(f) => r matches Err(e) && e@ == f,
        },
{
    let pw_chars = chars_of(password);
    let pw_trimmed = trim_chars(pw_chars.as_slice());
    let pw = string_of(pw_trimmed.as_slice());
    let raw_chars = chars_of(raw);
    let (header, rest) = match split_first_line_of(raw_chars.as_slice()) {
        Some(p) => p,
        None => return Err(VaultError::HeaderError),
    };
    let prefix = chars_of("$ANSIBLE_VAULT;1.1;AES256");
    if !starts_with_of(header.as_slice(), prefix.as_slice()) {
        return Err(VaultError::HeaderError);
    }
    let joined = join_lines_chars(rest.as_slice());
    let body_chars = trim_chars(joined.as_slice());
    let body = string_of(body_chars.as_slice());
    let vaulttext = match hex_decode(body.as_str().as_bytes()) {
        Some(v) => v,
        None => return Err(VaultError::HexDecodeError("vault body")),
    };
    let (salt_hex, hmac_hex, ciphertext_hex) = match split_three(vaulttext.as_slice()) {
        Some(p) => p,
        None => return Err(VaultError::CipherError("vault body missing salt/hmac/ciphertext parts")),
    };
    let salt = match hex_decode(salt_hex) {
        Some(v) => v,
        None => return Err(VaultError::HexDecodeError("salt")),
    };
    let ciphertext = match hex_decode(ciphertext_hex) {
        Some(v) => v,
        None => return Err(VaultError::HexDecodeError("ciphertext")),
    };
    if !utf8_valid(hmac_hex) {
        return Err(VaultError::CipherError("hmac line not valid UTF-8"));
    }
    let derived = derive_key(pw.as_str().as_bytes(), salt.as_slice(), 10000, 64);
    let enc_key = &derived.as_slice()[0..32];
    if ciphertext.len() < 16 {
        return Err(VaultError::CipherError("ciphertext shorter than IV"));
    }
    let iv = &ciphertext.as_slice()[0..16];
    let enc_payload = &ciphertext.as_slice()[16..ciphertext.len()];
    let plain = match aes256_ctr_apply(enc_key, iv, enc_payload) {
        Some(p) => p,
        None => return Err(VaultError::CipherError("invalid key/iv length")),
    };
    Ok(utf8_lossy_text(plain.as_slice()))
}

/// PKCS#7 unpadding: the last byte `n` gives the pad length, which must be
/// between 1 and the length of the data, and the last `n` bytes must all be
/// `n`; the result is the data without them.
pub open spec fn pkcs7_unpadded(data: Seq<u8>) -> Result<Seq<u8>, VaultFailure> {
    if data.len() == 0 {
        Err(VaultFailure::PaddingError("empty buffer"@))
    } else {
        let n = data.last() as int;
        if n == 0 || n > data.len() {
            Err(VaultFailure::PaddingError("invalid pad length"@))
        } else if !(forall|i: int| data.len() - n <= i < data.len() ==> data[i] == n) {
            Err(VaultFailure::PaddingError("padding bytes mismatch"@))
        } else {
            Ok(data.subrange(0, data.len() - n))
        }
    }
}

/// PKCS#7 padding to a multiple of `block` bytes: `n` copies of `n`, where
/// `n` (1..=block) brings the length to the next multiple.
pub open spec fn pkcs7_padded(data: Seq<u8>, block: nat) -> Seq<u8> {
    let n = (block - (data.len() as int) % (block as int)) as nat;
    data + Seq::new(n, |i: int| n as u8)
}

/// Removes PKCS#7 padding.
pub fn pkcs7_unpad(data: &[u8]) -> (r: Result<&[u8], VaultError>)
    ensures
        match pkcs7_unpadded(data@) {
            Ok(v) => r matches Ok(u) && u@ == v,
            Err(f) => r matches Err(e) && e@ == f,
        },
{
    let len = data.len();
    if len == 0 {
        return Err(VaultError::PaddingError("empty buffer"));
    }
    let pad_len = data[len - 1] as usize;
    if pad_len == 0 || pad_len > len {
        return Err(VaultError::PaddingError("invalid pad length"));
    }
    let mut i = len - pad_len;
    while i < len
        invariant
            len == data@.len(),
            1 <= pad_len <= len,
            pad_len == data@.last() as int,
            len - pad_len <= i <= len,
            forall|j: int| len - pad_len <= j < i ==> data@[j] == pad_len,
        decreases len - i,
    {
        if data[i] as usize != pad_len {
            return Err(VaultError::PaddingError("padding bytes mismatch"));
        }
        i = i + 1;
    }
    Ok(&data[0..len - pad_len])
}

/// Unpadding undoes padding: for a block size of 1 to 255 bytes,
/// `pkcs7_unpad(pkcs7_pad(data))` gives back `data`.
pub proof fn law_pkcs7_unpad_undoes_pad(data: Seq<u8>, block: nat)
    requires
        1 <= block <= 255,
    ensures
        pkcs7_unpadded(pkcs7_padded(data, block)) == Ok::<Seq<u8>, VaultFailure>(data),
{
    let n = (block - (data.len() as int) % (block as int)) as nat;
    let p = pkcs7_padded(data, block);
    assert(1 <= n <= block);
    assert(p.last() == n as u8);
    assert(p.subrange(0, p.len() - n) =~= data);
}

} // verus!

verus! {

/// White space around the password does not matter: a vault opens, or fails
/// to, the same way under a password and under the password trimmed.
pub proof fn law_password_whitespace_is_ignored(raw: Seq<char>, password: Seq<char>)
    ensures
        vault_plaintext(raw, password) == vault_plaintext(raw, trim(password)),
{
    crate::text::lemma_trim_idempotent(password);
}

} // verus!
