// Major versions, license reuse decisions and the validation rules.
use licensegen::db::types::{DbAddress, DbApplication, DbCustomer, DbEdition, DbLicense, DbProduct, DbZipcode};
use licensegen::license::crypto::judge_payload;
use licensegen::license::errors::EvaluationError;
use licensegen::license::evaluator::{evaluate_license, evaluate_license_on, parse_major};
use licensegen::license::json::JsonText;
use licensegen::license::types::{
    AddressInfo, ApplicationInfo, CustomerInfo, EditionInfo, LicenseBundle, LicenseDecision,
    LicensePayload, ProductInfo, ValidationOutcome, ValidityInfo, ValidityUnit,
};
use licensegen::util::datetime::{epoch, Date};

fn date(y: i32, m: u32, d: u32) -> Date {
    Date::from_ymd_opt(y, m, d).unwrap()
}

#[test]
fn major_versions() {
    assert_eq!(parse_major("3.1.4"), Some(3));
    assert_eq!(parse_major("0.3.0"), Some(0));
    assert_eq!(parse_major("12"), Some(12));
    assert_eq!(parse_major("+7.0"), Some(7));
    assert_eq!(parse_major("007.1"), Some(7));
    assert_eq!(parse_major("255.0"), Some(255));
    assert_eq!(parse_major("256.0"), None);
    assert_eq!(parse_major("99999999999.0"), None);
    assert_eq!(parse_major(""), None);
    assert_eq!(parse_major(".5"), None);
    assert_eq!(parse_major("+"), None);
    assert_eq!(parse_major("-1.0"), None);
    assert_eq!(parse_major("v3.0"), None);
    assert_eq!(parse_major("3a.0"), None);
}

#[test]
fn major_versions_agree_with_str_parse() {
    for text in ["1", "+1", "01", "255", "256", "", "+", "-0", "1 ", " 1", "1.2.3", "x", "9.9"] {
        let expected = text.split('.').next().and_then(|s| s.parse::<u8>().ok());
        assert_eq!(parse_major(text), expected, "{text}");
    }
}

fn product(id: u64, version: Option<&str>) -> DbProduct {
    DbProduct {
        id,
        name: "BotScanner".into(),
        code: "BSCAN".into(),
        version: version.map(|v| v.to_string()),
        editions: None,
        payload_schema: "{}".into(),
        features: "{}".into(),
        keypair_path: "botscanner".into(),
        active: true,
        created: epoch(),
        updated: epoch(),
    }
}

fn license(id: u64, edition_id: u64, expires: Option<Date>, revoked: bool) -> DbLicense {
    DbLicense {
        id,
        application_id: 1,
        edition_id,
        paid: None,
        version: None,
        payload: None,
        features: None,
        signature: None,
        issued: date(2026, 1, 1),
        expires,
        valid_major: Some(3),
        revoked,
        created: epoch(),
        updated: epoch(),
    }
}

fn bundle(lic: Option<DbLicense>, product_id: u64, version: Option<&str>, valid_major: Option<u8>) -> LicenseBundle {
    LicenseBundle {
        application: DbApplication {
            id: 1,
            name: "App".into(),
            customer_id: 2,
            edition_id: 5,
            price: rust_decimal::Decimal::ZERO,
            valid_major,
            validity_value: 0,
            validity_unit: None,
            raw_yaml: String::new(),
            received: date(2026, 1, 1),
            acquired: date(2026, 1, 1),
            status: None,
            created: epoch(),
            updated: epoch(),
        },
        product: product(product_id, version),
        edition: DbEdition {
            id: 5,
            name: "Pro".into(),
            product_id: 9,
            sku: "BSPRO".into(),
            edition_code: "PRO".into(),
            price: None,
            metadata: "{}".into(),
            valid: true,
            created: epoch(),
            updated: epoch(),
        },
        customer: DbCustomer {
            id: 2,
            company: None,
            first: "Ada".into(),
            last: "Lovelace".into(),
            email: "ada@example.com".into(),
            phone: "555".into(),
            address_id: 3,
            notes: None,
            created: epoch(),
            updated: epoch(),
        },
        address: DbAddress {
            id: 3,
            maildrop: None,
            street: Some("1 Main".into()),
            suite: None,
            zip: 67576,
            zip4: None,
            city: None,
            state: None,
            county: None,
            country: "USA".into(),
            created: epoch(),
            updated: epoch(),
        },
        license: lic,
        zipcode: DbZipcode { zip: 67576, city: "St John".into(), state: "KS".into(), county: None },
        validity: valid_major.map(|m| ValidityInfo {
            issued: date(2026, 1, 1),
            expires: None,
            valid_major: Some(m),
            validity_value: None,
            validity_unit: None,
        }),
    }
}

fn is_new(r: Result<LicenseDecision, EvaluationError>) -> bool {
    matches!(r, Ok(LicenseDecision::IssueNew))
}

#[test]
fn decisions_on_existing_licenses() {
    let today = date(2026, 6, 1);
    assert!(is_new(evaluate_license_on(&bundle(None, 9, Some("3.0"), Some(3)), today)));
    assert!(is_new(evaluate_license_on(&bundle(Some(license(4, 5, None, true)), 9, Some("3.0"), Some(3)), today)));
    assert!(is_new(evaluate_license_on(&bundle(Some(license(4, 6, None, false)), 9, Some("3.0"), Some(3)), today)));
    assert!(is_new(evaluate_license_on(&bundle(Some(license(4, 5, None, false)), 8, Some("3.0"), Some(3)), today)));
    assert!(is_new(evaluate_license_on(
        &bundle(Some(license(4, 5, Some(date(2026, 5, 31)), false)), 9, Some("3.0"), Some(3)),
        today
    )));
    match evaluate_license_on(&bundle(Some(license(4, 5, Some(date(2026, 6, 1)), false)), 9, Some("3.0"), Some(3)), today) {
        Ok(LicenseDecision::ReuseExisting(l)) => {
            assert_eq!(l.id, 4);
            assert_eq!(l.expires, Some(date(2026, 6, 1)));
        }
        _ => panic!("expected reuse"),
    }
    match evaluate_license_on(&bundle(Some(license(4, 5, None, false)), 9, Some("4.0"), Some(3)), today) {
        Err(EvaluationError::MajorVersionMismatch { expected, found }) => {
            assert_eq!(expected, Some(4));
            assert_eq!(found, Some(3));
        }
        _ => panic!("expected a major version mismatch"),
    }
    match evaluate_license_on(&bundle(Some(license(4, 5, None, false)), 9, None, None), today) {
        Ok(LicenseDecision::ReuseExisting(l)) => assert_eq!(l.id, 4),
        _ => panic!("expected reuse"),
    }
    assert!(is_new(evaluate_license(&bundle(None, 9, None, None))));
}

fn payload(code: &str, version: &str, expires: Option<Date>, valid_major: Option<u8>) -> LicensePayload {
    LicensePayload {
        product: ProductInfo {
            name: "P".into(),
            code: "P".into(),
            version: version.into(),
            payload_schema: JsonText::empty_object(),
            features: JsonText::empty_object(),
            editions: JsonText::empty_array(),
        },
        edition: EditionInfo { code: code.into(), name: "E".into(), features: JsonText::empty_array() },
        customer: CustomerInfo {
            name: "C".into(),
            email: "c@example.com".into(),
            address: AddressInfo {
                line1: "1".into(),
                line2: None,
                city: "X".into(),
                state: "Y".into(),
                postal: "00001".into(),
                country: "USA".into(),
            },
        },
        application: ApplicationInfo { received: date(2026, 1, 1), acquired: date(2026, 1, 1) },
        validity: ValidityInfo {
            issued: date(2026, 1, 1),
            expires,
            valid_major,
            validity_value: Some(1),
            validity_unit: Some(ValidityUnit::Years),
        },
    }
}

fn message(o: ValidationOutcome) -> String {
    o.into_anyhow().err().unwrap_or_default()
}

#[test]
fn validation_rules() {
    let today = date(2026, 6, 1);
    let past = Some(date(2026, 5, 31));
    let future = Some(date(2026, 6, 1));
    assert!(judge_payload(&payload("COM", "9.0", past, Some(1)), today).is_ok());
    assert!(judge_payload(&payload("DEV", "9.0", None, Some(1)), today).is_ok());
    assert_eq!(message(judge_payload(&payload("PRO", "3.0", past, Some(3)), today)), "License expired on 2026-05-31");
    assert_eq!(message(judge_payload(&payload("DEMO", "3.0", past, Some(3)), today)), "DEMO license expired on 2026-05-31");
    assert_eq!(message(judge_payload(&payload("DEMO", "3.0", None, Some(3)), today)), "DEMO license missing expiration date");
    assert_eq!(
        message(judge_payload(&payload("DEMO", "3.0", future, Some(4)), today)),
        "DEMO major version mismatch: product=3, license=4"
    );
    assert!(judge_payload(&payload("DEMO", "3.0", future, Some(3)), today).is_ok());
    assert_eq!(
        message(judge_payload(&payload("PRO", "4.2", None, Some(3)), today)),
        "Major version mismatch: product=4, license=3"
    );
    assert!(judge_payload(&payload("PRO", "3.0", None, Some(4)), today).is_ok());
    assert!(judge_payload(&payload("PRO", "beta", None, Some(4)), today).is_ok());
    assert!(judge_payload(&payload("PRO", "3.0", None, None), today).is_ok());
}

#[test]
fn outcome_messages() {
    assert!(ValidationOutcome::Valid.into_anyhow().is_ok());
    assert_eq!(message(ValidationOutcome::SignatureInvalid), "Signature verification failed");
    assert_eq!(message(ValidationOutcome::PayloadMalformed("Invalid JSON".into())), "Malformed payload: Invalid JSON");
    assert_eq!(message(ValidationOutcome::EditionNotAllowed("XYZ".into())), "Edition not allowed: XYZ");
    assert!(ValidationOutcome::Valid.is_ok());
    assert!(ValidationOutcome::SignatureInvalid.is_err());
    assert!(!ValidationOutcome::DemoMissingExpiration.is_ok());
}
