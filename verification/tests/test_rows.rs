// Database rows, the payload built from them, application requests and
// message signatures.
use base64::engine::general_purpose::STANDARD;
use base64::Engine;
use licensegen::db::pool::connection_string;
use licensegen::db::types::{DbAddress, DbApplication, DbCustomer, DbEdition, DbProduct, DbZipcode};
use licensegen::license::errors::PayloadError;
use licensegen::license::payload::{
    build_address_info, build_customer_info, build_edition_info, build_payload, build_product_info,
};
use licensegen::license::types::ValidityInfo;
use licensegen::product::loader::load_application;
use licensegen::product::types::{
    Address, AppError, ApplicationRequest, ContactSection, LicenseSection, Name, Product, RequestSection,
    SigningSection, VendorSection,
};
use licensegen::signing::signer::{sign_message, SignMessageError};
use licensegen::util::datetime::{epoch, Date};
use licensegen::vault::types::VaultSecrets;
use rsa::pkcs1::{EncodeRsaPrivateKey, LineEnding};
use rsa::{Pkcs1v15Sign, RsaPrivateKey, RsaPublicKey};
use sha2::{Digest, Sha256};

fn date(y: i32, m: u32, d: u32) -> Date {
    Date::from_ymd_opt(y, m, d).unwrap()
}

fn product() -> Product {
    Product {
        name: "Bot Scanner".into(),
        code: "BSCAN".into(),
        version: Some("3.2.1".into()),
        license: LicenseSection { payload_fields: vec!["customer".into(), "say \"hi\"".into()] },
        signing: SigningSection { keypair: "Vendor".into() },
        editions: vec!["BSPRO".into(), "DEMO".into()],
        dir: "/products/bscan".into(),
    }
}

fn address(maildrop: Option<&str>, street: Option<&str>, zip4: Option<u32>, city: Option<&str>) -> DbAddress {
    DbAddress {
        id: 1,
        maildrop: maildrop.map(|s| s.to_string()),
        street: street.map(|s| s.to_string()),
        suite: Some("Suite 4".into()),
        zip: 6702,
        zip4,
        city: city.map(|s| s.to_string()),
        state: None,
        county: None,
        country: "USA".into(),
        created: epoch(),
        updated: epoch(),
    }
}

fn zipcode() -> DbZipcode {
    DbZipcode { zip: 6702, city: "Wichita".into(), state: "KS".into(), county: None }
}

fn edition(metadata: &str) -> DbEdition {
    DbEdition {
        id: 4,
        name: "Professional".into(),
        product_id: 9,
        sku: "BS-PRO".into(),
        edition_code: "BSPRO".into(),
        price: None,
        metadata: metadata.into(),
        valid: true,
        created: epoch(),
        updated: epoch(),
    }
}

fn customer() -> DbCustomer {
    DbCustomer {
        id: 3,
        company: None,
        first: "Ann".into(),
        last: "Lee".into(),
        email: "ann@example.com".into(),
        phone: "555".into(),
        address_id: 1,
        notes: None,
        created: epoch(),
        updated: epoch(),
    }
}

fn application() -> DbApplication {
    DbApplication {
        id: 7,
        name: "Monitor".into(),
        customer_id: 3,
        edition_id: 4,
        price: rust_decimal::Decimal::new(1999, 2),
        valid_major: Some(3),
        validity_value: 1,
        validity_unit: Some("years".into()),
        raw_yaml: String::new(),
        received: date(2026, 3, 4),
        acquired: date(2026, 3, 1),
        status: None,
        created: epoch(),
        updated: epoch(),
    }
}

#[test]
fn product_rows_hold_json_columns() {
    let row = DbProduct::from_product(&product());
    assert_eq!(row.id, 0);
    assert_eq!(row.name, "Bot Scanner");
    assert_eq!(row.version, Some("3.2.1".to_string()));
    assert_eq!(row.payload_schema, serde_json::to_string(&product().license.payload_fields).unwrap());
    assert_eq!(row.payload_schema, "[\"customer\",\"say \\\"hi\\\"\"]");
    assert_eq!(row.editions, Some("[\"BSPRO\",\"DEMO\"]".to_string()));
    assert_eq!(row.features, "{}");
    assert_eq!(row.keypair_path, "Vendor");
    assert!(row.active);
    let converted: DbProduct = (&product()).into();
    assert_eq!(converted.code, "BSCAN");
    let params = row.as_params();
    assert_eq!(params.0, "Bot Scanner");
    assert_eq!(params.2, Some("3.2.1"));
    assert_eq!(params.5, Some("[\"BSPRO\",\"DEMO\"]"));
    assert!(*params.7);
    let mut empty = product();
    empty.editions.clear();
    empty.license.payload_fields.clear();
    let row = DbProduct::from_product(&empty);
    assert_eq!(row.payload_schema, "[]");
    assert_eq!(row.editions, Some("[]".to_string()));
}

#[test]
fn applications_describe_themselves() {
    assert_eq!(
        application().describe(),
        "DbApplication { id: 7, name: Monitor, customer_id: 3, edition_id: 4 }"
    );
}

#[test]
fn connection_urls() {
    let s = VaultSecrets {
        host: "db.local".into(),
        user: "lic".into(),
        pass: "p@ss".into(),
        port: 3306,
        database: "licenses".into(),
        rdbms: "mysql".into(),
    };
    assert_eq!(connection_string(&s), "mysql://lic:p@ss@db.local:3306/licenses");
}

#[test]
fn address_blocks() {
    let a = build_address_info(&address(Some("12"), Some("1 Main St"), Some(12), None), &zipcode()).ok().unwrap();
    assert_eq!(a.line1, "PO Box 12");
    assert_eq!(a.line2, Some("Suite 4".to_string()));
    assert_eq!(a.postal, "06702-0012");
    assert_eq!(a.city, "Wichita");
    assert_eq!(a.state, "KS");
    assert_eq!(a.country, "USA");
    let b = build_address_info(&address(None, Some("1 Main St"), None, Some("Derby")), &zipcode()).ok().unwrap();
    assert_eq!(b.line1, "1 Main St");
    assert_eq!(b.postal, "06702");
    assert_eq!(b.city, "Derby");
    assert!(matches!(
        build_address_info(&address(None, None, None, None), &zipcode()),
        Err(PayloadError::MissingAddressLine)
    ));
    let c = build_customer_info(&customer(), b);
    assert_eq!(c.name, "Ann Lee");
    assert_eq!(c.email, "ann@example.com");
}

#[test]
fn edition_and_product_blocks() {
    let e = build_edition_info(&edition("{\"seats\": 5, \"cloud\": true}")).ok().unwrap();
    assert_eq!(e.code, "BSPRO");
    assert_eq!(e.features.as_str(), "{\"cloud\":true,\"seats\":5}");
    assert!(matches!(build_edition_info(&edition("seats=5")), Err(PayloadError::InvalidJson)));
    let mut row = DbProduct::from_product(&product());
    row.version = None;
    row.editions = None;
    let p = build_product_info(&row).ok().unwrap();
    assert_eq!(p.version, "0");
    assert_eq!(p.editions.as_str(), "[]");
    assert_eq!(p.features.as_str(), "{}");
    assert_eq!(p.payload_schema.as_str(), "[\"customer\",\"say \\\"hi\\\"\"]");
    row.features = "{".into();
    assert!(matches!(build_product_info(&row), Err(PayloadError::InvalidJson)));
}

#[test]
fn payloads_from_rows() {
    let validity = || ValidityInfo {
        issued: date(2026, 3, 4),
        expires: Some(date(2027, 3, 4)),
        valid_major: Some(3),
        validity_value: Some(1),
        validity_unit: None,
    };
    let row = DbProduct::from_product(&product());
    let zip = zipcode();
    let addr = address(None, Some("1 Main St"), None, None);
    let p = build_payload(&application(), &row, &edition("{}"), &customer(), &addr, &zip, validity()).ok().unwrap();
    assert_eq!(p.customer.name, "Ann Lee");
    assert_eq!(p.customer.address.city, "Wichita");
    assert_eq!(p.product.version, "3.2.1");
    assert_eq!(p.application.acquired, date(2026, 3, 1));
    assert_eq!(p.validity.expires, Some(date(2027, 3, 4)));
    let no_line = address(None, None, None, None);
    assert!(matches!(
        build_payload(&application(), &row, &edition("nope"), &customer(), &no_line, &zip, validity()),
        Err(PayloadError::MissingAddressLine)
    ));
    assert!(matches!(
        build_payload(&application(), &row, &edition("nope"), &customer(), &addr, &zip, validity()),
        Err(PayloadError::InvalidJson)
    ));
}

fn request(product: &str, first: &str, edition: &str, app: &str) -> ApplicationRequest {
    ApplicationRequest {
        request: RequestSection { product: product.into(), edition: edition.into(), sku: "S".into(), name: app.into() },
        contact: ContactSection {
            company: None,
            name: Name { first: first.into(), last: "Lee".into() },
            email: "ann@example.com".into(),
            phone: "555".into(),
            address: Address {
                maildrop: None,
                street: Some("1 Main St".into()),
                suite: None,
                city: "Wichita".into(),
                state: "KS".into(),
                county: "Sedgwick".into(),
                country: "USA".into(),
                zip: "67202".into(),
            },
            notes: None,
        },
        vendor: VendorSection {
            received_on: date(2026, 3, 4),
            acquired: date(2026, 3, 1),
            price: None,
            valid_major: Some(3),
            validity_value: Some(1),
            validity_unit: Some("years".into()),
            notes: None,
        },
        raw_yaml: String::new(),
    }
}

fn invalid(r: Result<ApplicationRequest, AppError>) -> String {
    match r {
        Err(AppError::Invalid(m)) => m,
        _ => panic!("an invalid request"),
    }
}

#[test]
fn application_requests_need_their_fields() {
    let ok = load_application(request("BSCAN", "Ann", "BSPRO", "Monitor"), "yaml text".into()).ok().unwrap();
    assert_eq!(ok.raw_yaml, "yaml text");
    assert_eq!(ok.request.product, "BSCAN");
    assert_eq!(invalid(load_application(request("", "Ann", "BSPRO", "Monitor"), String::new())), "Missing request.product");
    assert_eq!(invalid(load_application(request("BSCAN", "", "BSPRO", "Monitor"), String::new())), "Missing first/last name");
    assert_eq!(invalid(load_application(request("BSCAN", "Ann", "", "Monitor"), String::new())), "Missing edition");
    assert_eq!(invalid(load_application(request("BSCAN", "Ann", "BSPRO", ""), String::new())), "Missing app name");
    assert_eq!(invalid(load_application(request("", "", "", ""), String::new())), "Missing request.product");
}

#[test]
fn messages_are_signed_without_a_digest_prefix() {
    let key = RsaPrivateKey::new(&mut rand::thread_rng(), 1024).unwrap();
    let pem = key.to_pkcs1_pem(LineEnding::LF).unwrap();
    let sig = match sign_message(&pem, b"hello") {
        Ok(s) => s,
        Err(_) => panic!("signed"),
    };
    let bytes = STANDARD.decode(sig).unwrap();
    assert_eq!(bytes.len(), 128);
    let digest = Sha256::digest(b"hello");
    assert!(RsaPublicKey::from(&key).verify(Pkcs1v15Sign::new_unprefixed(), &digest, &bytes).is_ok());
    assert!(matches!(sign_message("not a key", b"hello"), Err(SignMessageError::InvalidKey(_))));
}
