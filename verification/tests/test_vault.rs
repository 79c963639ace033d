// Reading vault texts: the CTR layout, the CBC layout and PKCS#7 padding.
use cbc::cipher::block_padding::Pkcs7;
use cbc::cipher::{BlockEncryptMut, KeyIvInit, StreamCipher};
use licensegen::vault::decryptor::{load_vault, pkcs7_unpad};
use licensegen::vault::reader;
use licensegen::vault::types::VaultError;

const HEADER: &str = "$ANSIBLE_VAULT;1.1;AES256";

fn lines_of(hex_text: &str) -> String {
    let mut out = String::new();
    for (i, c) in hex_text.chars().enumerate() {
        if i > 0 && i % 80 == 0 {
            out.push('\n');
        }
        out.push(c);
    }
    out
}

fn ctr_vault(password: &str, salt: &[u8], iv: &[u8; 16], plain: &str) -> String {
    let mut derived = [0u8; 64];
    pbkdf2::pbkdf2_hmac::<sha2::Sha256>(password.as_bytes(), salt, 10000, &mut derived);
    let mut body = plain.as_bytes().to_vec();
    let mut cipher = ctr::Ctr128BE::<aes::Aes256>::new_from_slices(&derived[..32], iv).unwrap();
    cipher.apply_keystream(&mut body);
    let mut ciphertext = iv.to_vec();
    ciphertext.extend_from_slice(&body);
    let vaulttext = format!("{}\n{}\n{}", hex::encode(salt), "00ff00ff", hex::encode(&ciphertext));
    format!("{}\n{}\n", HEADER, lines_of(&hex::encode(vaulttext.as_bytes())))
}

fn cbc_vault(password: &str, plain: &str) -> String {
    let mut key_iv = [0u8; 48];
    pbkdf2::pbkdf2_hmac::<sha2::Sha256>(password.as_bytes(), b"ansible", 10000, &mut key_iv);
    let bytes = plain.as_bytes();
    let mut buf = vec![0u8; bytes.len() + 16];
    buf[..bytes.len()].copy_from_slice(bytes);
    let enc = cbc::Encryptor::<aes::Aes256>::new_from_slices(&key_iv[..32], &key_iv[32..]).unwrap();
    let ciphertext = enc.encrypt_padded_mut::<Pkcs7>(&mut buf, bytes.len()).unwrap().to_vec();
    format!("{}\r\n{}\r\n", HEADER, lines_of(&hex::encode(&ciphertext)))
}

const SECRETS: &str = "db_host: localhost\ndb_user: lic\ndb_pass: s3cr3t\ndb_port: 3306\n";

fn text_of(r: Result<String, VaultError>) -> String {
    match r {
        Ok(t) => t,
        Err(_) => panic!("the vault decrypts"),
    }
}

#[test]
fn ctr_vaults_decrypt() {
    let raw = ctr_vault("correct horse", b"0123456789abcdef0123456789abcdef", &[7u8; 16], SECRETS);
    assert_eq!(text_of(load_vault(&raw, "correct horse")), SECRETS);
    assert_eq!(text_of(load_vault(&raw, "  correct horse\n")), SECRETS);
    assert_eq!(text_of(load_vault(&raw, "\u{3000}correct horse\u{a0}\u{2028}")), SECRETS);
    assert_ne!(text_of(load_vault(&raw, "wrong horse")), SECRETS);
    let empty = ctr_vault("pw", b"salt", &[0u8; 16], "");
    assert_eq!(text_of(load_vault(&empty, "pw")), "");
}

#[test]
fn ctr_vault_errors() {
    assert!(matches!(load_vault("", "pw"), Err(VaultError::HeaderError)));
    assert!(matches!(load_vault("$ANSIBLE_VAULT;1.2;AES256\n00\n", "pw"), Err(VaultError::HeaderError)));
    assert!(matches!(load_vault("plain text\n", "pw"), Err(VaultError::HeaderError)));
    assert!(matches!(
        load_vault(&format!("{}\nxyz\n", HEADER), "pw"),
        Err(VaultError::HexDecodeError("vault body"))
    ));
    let one_part = hex::encode(b"abcd");
    assert!(matches!(
        load_vault(&format!("{}\n{}\n", HEADER, one_part), "pw"),
        Err(VaultError::CipherError("vault body missing salt/hmac/ciphertext parts"))
    ));
    let bad_salt = hex::encode(b"zz\n00\n00112233");
    assert!(matches!(
        load_vault(&format!("{}\n{}\n", HEADER, bad_salt), "pw"),
        Err(VaultError::HexDecodeError("salt"))
    ));
    let bad_cipher = hex::encode(b"0011\n00\nnothex");
    assert!(matches!(
        load_vault(&format!("{}\n{}\n", HEADER, bad_cipher), "pw"),
        Err(VaultError::HexDecodeError("ciphertext"))
    ));
    let short = hex::encode(b"0011\n00\n00112233");
    assert!(matches!(
        load_vault(&format!("{}\n{}\n", HEADER, short), "pw"),
        Err(VaultError::CipherError("ciphertext shorter than IV"))
    ));
    let mut bad_hmac = b"0011\n".to_vec();
    bad_hmac.extend_from_slice(&[0xff, 0xfe]);
    bad_hmac.extend_from_slice(b"\n00112233445566778899aabbccddeeff");
    assert!(matches!(
        load_vault(&format!("{}\n{}\n", HEADER, hex::encode(&bad_hmac)), "pw"),
        Err(VaultError::CipherError("hmac line not valid UTF-8"))
    ));
}

#[test]
fn cbc_vaults_decrypt() {
    let raw = cbc_vault("hunter2", SECRETS);
    match reader::load_vault(&raw, "hunter2") {
        Ok(t) => assert_eq!(t, SECRETS),
        Err(_) => panic!("the vault decrypts"),
    }
    match reader::load_vault(&raw, "\thunter2  ") {
        Ok(t) => assert_eq!(t, SECRETS),
        Err(_) => panic!("surrounding white space of the password is ignored"),
    }
    assert!(matches!(reader::load_vault("no header\n", "x"), Err(reader::VaultError::HeaderError)));
    assert!(matches!(reader::load_vault("", "x"), Err(reader::VaultError::HeaderError)));
    assert!(matches!(
        reader::load_vault(&format!("{}\nnot hex\n", HEADER), "x"),
        Err(reader::VaultError::DecryptError)
    ));
    assert!(matches!(
        reader::load_vault(&format!("{}\n0011\n", HEADER), "x"),
        Err(reader::VaultError::DecryptError)
    ));
}

#[test]
fn pkcs7_padding_is_removed() {
    assert_eq!(pkcs7_unpad(&[1, 2, 3, 3, 3, 3]).ok(), Some(&[1u8, 2, 3][..]));
    assert_eq!(pkcs7_unpad(&[4, 4, 4, 4]).ok(), Some(&[][..]));
    assert_eq!(pkcs7_unpad(&[9, 1]).ok(), Some(&[9u8][..]));
    assert!(matches!(pkcs7_unpad(&[]), Err(VaultError::PaddingError("empty buffer"))));
    assert!(matches!(pkcs7_unpad(&[5, 0]), Err(VaultError::PaddingError("invalid pad length"))));
    assert!(matches!(pkcs7_unpad(&[1, 2, 9]), Err(VaultError::PaddingError("invalid pad length"))));
    assert!(matches!(pkcs7_unpad(&[1, 3, 2]), Err(VaultError::PaddingError("padding bytes mismatch"))));
}

#[test]
fn pkcs7_unpadding_undoes_padding() {
    for len in 0..40usize {
        let data: Vec<u8> = (0..len).map(|i| (i * 7 % 256) as u8).collect();
        let n = 16 - len % 16;
        let mut padded = data.clone();
        padded.extend(std::iter::repeat(n as u8).take(n));
        assert_eq!(pkcs7_unpad(&padded).ok(), Some(&data[..]));
    }
}
