// Canonical payload JSON, license files and the validation of envelopes.
use base64::engine::general_purpose::STANDARD;
use base64::Engine;
use licensegen::db::types::DbLicense;
use licensegen::license::crypto::{canonicalize_payload, validate_license_on};
use licensegen::license::generator::license_path;
use licensegen::license::json::JsonText;
use licensegen::license::keys::{PrivateKey, PublicKey};
use licensegen::license::signer::sign;
use licensegen::license::types::{
    AddressInfo, ApplicationInfo, CustomerInfo, EditionInfo, LicenseDecision, LicensePayload, ProductInfo,
    ValidationOutcome, ValidityInfo, ValidityUnit,
};
use licensegen::license::writer::license_file_json;
use licensegen::util::datetime::{epoch, Date};
use rsa::pkcs1::{EncodeRsaPrivateKey, EncodeRsaPublicKey, LineEnding};
use rsa::{Pkcs1v15Sign, RsaPrivateKey, RsaPublicKey};
use serde_json::Value;
use sha2::{Digest, Sha256};

fn date(y: i32, m: u32, d: u32) -> Date {
    Date::from_ymd_opt(y, m, d).unwrap()
}

fn text(t: &str) -> JsonText {
    JsonText::parse(t).unwrap()
}

fn payload(code: &str, version: &str, expires: Option<Date>, valid_major: Option<u8>) -> LicensePayload {
    LicensePayload {
        product: ProductInfo {
            name: "Bot \"Scanner\"\n".into(),
            code: "BSCAN".into(),
            version: version.into(),
            payload_schema: text("{\"type\": \"object\", \"b\": [1, 2.5, -3]}"),
            features: text("{\"z\":true,\"a\":null}"),
            editions: text("[\"BSPRO\",\"DEMO\"]"),
        },
        edition: EditionInfo { code: code.into(), name: "Edition\t\u{1}Zoë".into(), features: text("[]") },
        customer: CustomerInfo {
            name: "Ann Back\\slash".into(),
            email: "ann@example.com".into(),
            address: AddressInfo {
                line1: "PO Box 12".into(),
                line2: Some("Suite 4".into()),
                city: "Wichita".into(),
                state: "KS".into(),
                postal: "67202-0012".into(),
                country: "USA".into(),
            },
        },
        application: ApplicationInfo { received: date(2026, 3, 4), acquired: date(2026, 2, 28) },
        validity: ValidityInfo {
            issued: date(2026, 3, 4),
            expires,
            valid_major,
            validity_value: Some(30),
            validity_unit: Some(ValidityUnit::Days),
        },
    }
}

fn obj(members: Vec<(&str, Value)>) -> Value {
    let mut m = serde_json::Map::new();
    for (k, v) in members {
        m.insert(k.to_string(), v);
    }
    Value::Object(m)
}

fn s(t: &str) -> Value {
    Value::String(t.to_string())
}

fn parsed(t: &str) -> Value {
    serde_json::from_str(t).unwrap()
}

#[test]
fn canonical_json_is_serde_jsons_text() {
    let p = payload("BSPRO", "3.1.4", Some(date(2027, 1, 2)), Some(3));
    let expected = obj(vec![
        (
            "product",
            obj(vec![
                ("name", s("Bot \"Scanner\"\n")),
                ("code", s("BSCAN")),
                ("version", s("3.1.4")),
                ("payload_schema", parsed("{\"type\": \"object\", \"b\": [1, 2.5, -3]}")),
                ("features", parsed("{\"z\":true,\"a\":null}")),
                ("editions", parsed("[\"BSPRO\",\"DEMO\"]")),
            ]),
        ),
        ("edition", obj(vec![("code", s("BSPRO")), ("name", s("Edition\t\u{1}Zoë")), ("features", parsed("[]"))])),
        (
            "customer",
            obj(vec![
                ("name", s("Ann Back\\slash")),
                ("email", s("ann@example.com")),
                (
                    "address",
                    obj(vec![
                        ("line1", s("PO Box 12")),
                        ("line2", s("Suite 4")),
                        ("city", s("Wichita")),
                        ("state", s("KS")),
                        ("postal", s("67202-0012")),
                        ("country", s("USA")),
                    ]),
                ),
            ]),
        ),
        ("application", obj(vec![("received", s("2026-03-04")), ("acquired", s("2026-02-28"))])),
        (
            "validity",
            obj(vec![
                ("issued", s("2026-03-04")),
                ("expires", s("2027-01-02")),
                ("valid_major", Value::from(3u8)),
                ("validity_value", Value::from(30u16)),
                ("validity_unit", s("Days")),
            ]),
        ),
    ]);
    assert_eq!(canonicalize_payload(&p), serde_json::to_string(&expected).unwrap());
    let canonical = canonicalize_payload(&p);
    assert!(!canonical.contains('\n'));
    assert!(canonical.starts_with("{\"application\":{\"acquired\":\"2026-02-28\""));
}

#[test]
fn absent_values_are_null() {
    let mut p = payload("BSPRO", "1.0", None, None);
    p.customer.address.line2 = None;
    p.validity.validity_value = None;
    p.validity.validity_unit = None;
    let c = canonicalize_payload(&p);
    assert!(c.contains("\"line2\":null"));
    assert!(c.contains("{\"expires\":null,\"issued\":\"2026-03-04\",\"valid_major\":null,\"validity_unit\":null,\"validity_value\":null}"));
}

#[test]
fn json_texts_are_canonical() {
    assert_eq!(text(" { \"b\" : 1 , \"a\" : [ true , null , 2.5 , -7 ] } ").as_str(), "{\"a\":[true,null,2.5,-7],\"b\":1}");
    assert_eq!(text("\"\\u00e9\\n\"").as_str(), "\"é\\n\"");
    assert!(JsonText::parse("{not json").is_none());
    assert_eq!(JsonText::empty_object().as_str(), "{}");
    assert_eq!(JsonText::empty_array().as_str(), "[]");
}

fn keys() -> (PrivateKey, PublicKey, RsaPrivateKey) {
    let key = RsaPrivateKey::new(&mut rand::thread_rng(), 1024).unwrap();
    let private_pem = key.to_pkcs1_pem(LineEnding::LF).unwrap();
    let public_pem = RsaPublicKey::from(&key).to_pkcs1_pem(LineEnding::LF).unwrap();
    (
        PrivateKey::from_pkcs1_pem(&private_pem).ok().unwrap(),
        PublicKey::from_pkcs1_pem(&public_pem).ok().unwrap(),
        key,
    )
}

fn signed_file(p: &LicensePayload, key: &PrivateKey) -> String {
    license_file_json(&sign(p, key).ok().unwrap())
}

fn raw_signature(key: &RsaPrivateKey, text: &str) -> String {
    let digest = Sha256::digest(text.as_bytes());
    STANDARD.encode(key.sign(Pkcs1v15Sign::new::<Sha256>(), &digest).unwrap())
}

fn malformed(o: ValidationOutcome) -> String {
    match o {
        ValidationOutcome::PayloadMalformed(m) => m,
        _ => panic!("a malformed payload"),
    }
}

#[test]
fn license_files_hold_payload_and_signature() {
    let (private_key, _, _) = keys();
    let p = payload("COM", "2.0", None, None);
    let signed = sign(&p, &private_key).ok().unwrap();
    assert_eq!(signed.payload_json, canonicalize_payload(&p));
    assert_eq!(STANDARD.decode(&signed.signature).unwrap().len(), 128);
    let file = license_file_json(&signed);
    assert_eq!(file, format!("{{\"payload\":{},\"signature\":\"{}\"}}", signed.payload_json, signed.signature));
    let v: Value = serde_json::from_str(&file).unwrap();
    assert_eq!(serde_json::to_string(&v["payload"]).unwrap(), signed.payload_json);
}

#[test]
fn signed_licenses_validate_on_their_content() {
    let (private_key, public_key, _) = keys();
    let today = date(2026, 6, 1);
    let com = signed_file(&payload("COM", "9.0", Some(date(2020, 1, 1)), Some(1)), &private_key);
    assert!(matches!(validate_license_on(&com, &public_key, today), ValidationOutcome::Valid));
    let pro = signed_file(&payload("BSPRO", "3.0", Some(date(2027, 1, 1)), Some(3)), &private_key);
    assert!(matches!(validate_license_on(&pro, &public_key, today), ValidationOutcome::Valid));
    let expired = signed_file(&payload("BSPRO", "3.0", Some(date(2026, 5, 31)), Some(3)), &private_key);
    match validate_license_on(&expired, &public_key, today) {
        ValidationOutcome::Expired(d) => assert_eq!(d, date(2026, 5, 31)),
        _ => panic!("expired"),
    }
    let last_day = signed_file(&payload("BSPRO", "3.0", Some(today), Some(3)), &private_key);
    assert!(matches!(validate_license_on(&last_day, &public_key, today), ValidationOutcome::Valid));
    let demo = signed_file(&payload("DEMO", "3.0", None, Some(3)), &private_key);
    assert!(matches!(validate_license_on(&demo, &public_key, today), ValidationOutcome::DemoMissingExpiration));
    let old_major = signed_file(&payload("BSPRO", "4.2", None, Some(3)), &private_key);
    assert!(matches!(
        validate_license_on(&old_major, &public_key, today),
        ValidationOutcome::MajorVersionMismatch { product_major: 4, license_major: 3 }
    ));
}

#[test]
fn envelopes_that_cannot_be_read() {
    let (_, public_key, key) = keys();
    let today = date(2026, 6, 1);
    assert_eq!(malformed(validate_license_on("not json", &public_key, today)), "Invalid JSON");
    assert_eq!(malformed(validate_license_on("{}", &public_key, today)), "Missing payload");
    assert_eq!(malformed(validate_license_on("{\"payload\":{}}", &public_key, today)), "Missing signature");
    assert_eq!(
        malformed(validate_license_on("{\"payload\":{},\"signature\":5}", &public_key, today)),
        "Missing signature"
    );
    assert!(matches!(
        validate_license_on("{\"payload\":{},\"signature\":\"AAAA\"}", &public_key, today),
        ValidationOutcome::SignatureInvalid
    ));
    assert!(matches!(
        validate_license_on("{\"payload\":{},\"signature\":\"not base64!\"}", &public_key, today),
        ValidationOutcome::SignatureInvalid
    ));
    let sig = raw_signature(&key, "{\"foo\":1}");
    let envelope = format!("{{\"payload\": {{ \"foo\" : 1 }}, \"signature\": \"{}\"}}", sig);
    assert_eq!(malformed(validate_license_on(&envelope, &public_key, today)), "Payload schema mismatch");
}

#[test]
fn payload_members_are_read_as_serde_reads_them() {
    let (_, public_key, key) = keys();
    let today = date(2026, 6, 1);
    let p = payload("BSPRO", "3.0", Some(date(2027, 1, 1)), Some(3));
    let mut v: Value = serde_json::from_str(&canonicalize_payload(&p)).unwrap();
    v["extra"] = Value::from(1);
    v["customer"]["address"]["line2"] = Value::Null;
    v["validity"]["validity_unit"] = s("Weeks");
    v["validity"].as_object_mut().unwrap().remove("valid_major");
    let wrapped = |v: &Value| {
        let t = serde_json::to_string(v).unwrap();
        format!("{{\"payload\":{},\"signature\":\"{}\"}}", t, raw_signature(&key, &t))
    };
    assert!(matches!(validate_license_on(&wrapped(&v), &public_key, today), ValidationOutcome::Valid));

    let mut bad_unit = v.clone();
    bad_unit["validity"]["validity_unit"] = s("Fortnights");
    assert_eq!(malformed(validate_license_on(&wrapped(&bad_unit), &public_key, today)), "Payload schema mismatch");

    let mut big_major = v.clone();
    big_major["validity"]["valid_major"] = Value::from(300);
    assert_eq!(malformed(validate_license_on(&wrapped(&big_major), &public_key, today)), "Payload schema mismatch");

    let mut bad_date = v.clone();
    bad_date["validity"]["issued"] = s("2026-13-01");
    assert_eq!(malformed(validate_license_on(&wrapped(&bad_date), &public_key, today)), "Payload schema mismatch");

    let mut no_features = v.clone();
    no_features["edition"].as_object_mut().unwrap().remove("features");
    assert_eq!(malformed(validate_license_on(&wrapped(&no_features), &public_key, today)), "Payload schema mismatch");

    let mut as_arrays = v.clone();
    as_arrays["application"] = Value::Array(vec![s("2026-03-04"), s("2026-02-28")]);
    as_arrays["customer"]["address"] = Value::Array(vec![
        s("PO Box 12"),
        Value::Null,
        s("Wichita"),
        s("KS"),
        s("67202-0012"),
        s("USA"),
    ]);
    assert!(matches!(validate_license_on(&wrapped(&as_arrays), &public_key, today), ValidationOutcome::Valid));

    let whole = Value::Array(vec![
        v["product"].clone(),
        v["edition"].clone(),
        v["customer"].clone(),
        v["application"].clone(),
        v["validity"].clone(),
    ]);
    assert!(matches!(validate_license_on(&wrapped(&whole), &public_key, today), ValidationOutcome::Valid));

    let mut short = v.clone();
    short["application"] = Value::Array(vec![s("2026-03-04")]);
    assert_eq!(malformed(validate_license_on(&wrapped(&short), &public_key, today)), "Payload schema mismatch");
    let mut long = v.clone();
    long["application"] = Value::Array(vec![s("2026-03-04"), s("2026-02-28"), s("2026-02-28")]);
    assert_eq!(malformed(validate_license_on(&wrapped(&long), &public_key, today)), "Payload schema mismatch");

    let mut unit_map = v.clone();
    unit_map["validity"]["validity_unit"] = obj(vec![("Weeks", Value::Null)]);
    assert!(matches!(validate_license_on(&wrapped(&unit_map), &public_key, today), ValidationOutcome::Valid));
    let mut unit_value = v.clone();
    unit_value["validity"]["validity_unit"] = obj(vec![("Weeks", Value::from(1))]);
    assert_eq!(malformed(validate_license_on(&wrapped(&unit_value), &public_key, today)), "Payload schema mismatch");
    let mut two_units = v.clone();
    two_units["validity"]["validity_unit"] = obj(vec![("Weeks", Value::Null), ("Days", Value::Null)]);
    assert_eq!(malformed(validate_license_on(&wrapped(&two_units), &public_key, today)), "Payload schema mismatch");

    let mut null_features = v.clone();
    null_features["edition"]["features"] = Value::Null;
    assert!(matches!(validate_license_on(&wrapped(&null_features), &public_key, today), ValidationOutcome::Valid));
}

#[test]
fn tampered_licenses_are_refused() {
    let (private_key, public_key, _) = keys();
    let today = date(2026, 6, 1);
    let file = signed_file(&payload("COM", "1.0", None, None), &private_key);
    let tampered = file.replace("\"COM\"", "\"DEV\"");
    assert!(matches!(validate_license_on(&tampered, &public_key, today), ValidationOutcome::SignatureInvalid));
    let (_, other_public, _) = keys();
    assert!(matches!(validate_license_on(&file, &other_public, today), ValidationOutcome::SignatureInvalid));
}

#[test]
fn license_files_are_named_by_decision() {
    let lic = DbLicense {
        id: 42,
        application_id: 1,
        edition_id: 2,
        paid: None,
        version: None,
        payload: None,
        features: None,
        signature: None,
        issued: date(2026, 1, 1),
        expires: None,
        valid_major: None,
        revoked: false,
        created: epoch(),
        updated: epoch(),
    };
    assert_eq!(license_path("/out", &LicenseDecision::ReuseExisting(lic)), "/out/license_42.lic");
    assert_eq!(license_path("/out/", &LicenseDecision::IssueNew), "/out/license_new.lic");
}

#[test]
fn short_keys_cannot_sign() {
    let key = RsaPrivateKey::new(&mut rand::thread_rng(), 256).unwrap();
    let pem = key.to_pkcs1_pem(LineEnding::LF).unwrap();
    let private_key = PrivateKey::from_pkcs1_pem(&pem).ok().unwrap();
    assert!(sign(&payload("COM", "1.0", None, None), &private_key).is_err());
    assert!(licensegen::signing::signer::sign_message(&pem, b"hello").is_err());
    let key = RsaPrivateKey::new(&mut rand::thread_rng(), 512).unwrap();
    let pem = key.to_pkcs1_pem(LineEnding::LF).unwrap();
    let private_key = PrivateKey::from_pkcs1_pem(&pem).ok().unwrap();
    let signed = sign(&payload("COM", "1.0", None, None), &private_key).ok().unwrap();
    assert_eq!(STANDARD.decode(&signed.signature).unwrap().len(), 64);
}
