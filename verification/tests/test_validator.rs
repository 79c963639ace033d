// Signing and validating license payloads end to end.
use licensegen::license::crypto::{canonicalize_payload, validate_license};
use licensegen::license::json::JsonText;
use licensegen::license::keys::{PrivateKey, PublicKey};
use licensegen::license::signer::sign;
use licensegen::license::types::{
    AddressInfo, ApplicationInfo, CustomerInfo, EditionInfo, LicensePayload, ProductInfo,
    ValidityInfo, ValidityUnit,
};
use licensegen::util::datetime::Date;
use rand::thread_rng;
use rsa::pkcs1::{EncodeRsaPrivateKey, EncodeRsaPublicKey, LineEnding};
use rsa::{RsaPrivateKey, RsaPublicKey};

fn date(y: i32, m: u32, d: u32) -> Date {
    Date::from_ymd_opt(y, m, d).unwrap()
}

fn library_private_key(key: &RsaPrivateKey) -> PrivateKey {
    let pem = key.to_pkcs1_pem(LineEnding::LF).expect("pem");
    PrivateKey::from_pkcs1_pem(&pem).expect("key")
}

fn library_public_key(key: &RsaPublicKey) -> PublicKey {
    let pem = key.to_pkcs1_pem(LineEnding::LF).expect("pem");
    PublicKey::from_pkcs1_pem(&pem).expect("key")
}

fn minimal_payload() -> LicensePayload {
    LicensePayload {
        product: ProductInfo {
            name: "BotScanner".into(),
            code: "BSCAN".into(),
            version: "0.3.0".into(),
            payload_schema: JsonText::empty_object(),
            features: JsonText::empty_object(),
            editions: JsonText::empty_array(),
        },
        edition: EditionInfo {
            code: "BSPRO".into(),
            name: "Professional Edition".into(),
            features: JsonText::empty_array(),
        },
        customer: CustomerInfo {
            name: "Test Customer".into(),
            email: "test@example.com".into(),
            address: AddressInfo {
                line1: "123 Main St".into(),
                line2: None,
                city: "St John".into(),
                state: "KS".into(),
                postal: "67576".into(),
                country: "USA".into(),
            },
        },
        application: ApplicationInfo { received: date(2026, 3, 4), acquired: date(2026, 3, 4) },
        validity: ValidityInfo {
            issued: date(2026, 3, 4),
            expires: None,
            valid_major: Some(3),
            validity_value: Some(1),
            validity_unit: Some(ValidityUnit::Years),
        },
    }
}

#[test]
fn test_signer_minimal_payload() {
    let payload = minimal_payload();
    let private_key = RsaPrivateKey::new(&mut rand::thread_rng(), 2048)
        .expect("failed to generate test key");
    let private_key = library_private_key(&private_key);

    let signature = sign(&payload, &private_key).ok().expect("signing failed");

    assert!(!signature.payload_json.is_empty());
    assert!(!signature.signature.is_empty());
}

#[test]
fn test_signature_validation() {
    let mut rng = thread_rng();
    let private_key = RsaPrivateKey::new(&mut rng, 2048).expect("key generation failed");
    let public_key = RsaPublicKey::from(&private_key);
    let private_key = library_private_key(&private_key);
    let public_key = library_public_key(&public_key);

    let payload = minimal_payload();
    let signed = sign(&payload, &private_key).ok().expect("signing failed");
    println!("SIGNED canonical payload: {}", signed.payload_json);

    let mut license_json = String::new();
    license_json.push_str("{\"payload\":");
    license_json.push_str(&signed.payload_json);
    license_json.push_str(",\"signature\":\"");
    license_json.push_str(&signed.signature);
    license_json.push_str("\"}");

    let ok = validate_license(&license_json, &public_key);
    assert!(ok.is_ok(), "signature should validate");

    let mut bad_sig = signed.signature.clone().into_bytes();
    bad_sig[0] ^= 0xFF;
    let payload_value: serde_json::Value = serde_json::from_str(&signed.payload_json).unwrap();
    let mut envelope = serde_json::Map::new();
    envelope.insert("payload".to_string(), payload_value);
    envelope.insert(
        "signature".to_string(),
        serde_json::Value::String(String::from_utf8_lossy(&bad_sig).into_owned()),
    );
    let bad_license_json = serde_json::Value::Object(envelope).to_string();

    let bad = validate_license(&bad_license_json, &public_key);
    assert!(bad.is_err(), "corrupted signature must fail validation");
}

#[test]
fn canonical_payload_json_has_sorted_keys() {
    let payload = minimal_payload();

    let json = canonicalize_payload(&payload);

    // Basic invariants
    assert!(json.contains("\"product\""));
    assert!(json.contains("\"edition\""));
    assert!(json.contains("\"customer\""));
    assert!(json.contains("\"application\""));
    assert!(json.contains("\"validity\""));

    // Deterministic ordering: members in sorted key order
    let product_pos = json.find("\"product\"").unwrap();
    let edition_pos = json.find("\"edition\"").unwrap();
    assert!(edition_pos < product_pos, "members are written in sorted key order");

    // No pretty-print whitespace
    assert!(!json.contains('\n'));
    assert!(!json.contains("  "));

    // JSON must be stable across runs
    let json_again = canonicalize_payload(&payload);
    assert_eq!(json, json_again, "canonical JSON must be stable");
}
