//! Products, editions and application requests as their YAML files describe
//! them.
use vstd::prelude::*;

use crate::util::datetime::{Date, DateTime};
use rust_decimal::Decimal;
use std::collections::HashMap;

verus! {

/// A postal address in an application request.
pub struct Address {
    pub maildrop: Option<String>,
    pub street: Option<String>,
    pub suite: Option<String>,
    pub city: String,
    pub state: String,
    pub county: String,
    pub country: String,
    pub zip: String,
}

/// An application known to the database.
pub struct Application {
    pub id: Option<u64>,
    pub customer_id: u64,
    pub product_id: u64,
    pub edition_id: u64,
    pub app_name: String,
    pub received: Date,
    pub valid_major: u8,
    pub acquired: Date,
    pub notes: String,
}

/// A license application read from `application.yml`.
pub struct ApplicationRequest {
    pub request: RequestSection,
    pub contact: ContactSection,
    pub vendor: VendorSection,
    /// The YAML text the request was read from.
    pub raw_yaml: String,
}

/// Who applies.
pub struct ContactSection {
    pub company: Option<String>,
    pub name: Name,
    pub email: String,
    pub phone: String,
    pub address: Address,
    pub notes: Option<String>,
}

/// An edition attached to an application.
pub struct Edition {
    pub id: u64,
    pub application_id: u64,
    pub name: String,
    pub code: String,
    pub price: Option<Decimal>,
    pub updated: DateTime,
}

/// The `edition:` block of an `edition.yml`.
pub struct EditionInfo {
    pub sku: String,
    /// COM, PRO, ENT, DEV, DEMO
    pub code: String,
    pub name: String,
    pub price: Option<Decimal>,
    pub valid: bool,
}

/// Whether an edition is offered.
pub struct EditionRule {
    pub valid: bool,
}

/// The `license:` block of a `product.yml`.
pub struct LicenseSection {
    pub payload_fields: Vec<String>,
}

/// A person's name.
pub struct Name {
    pub first: String,
    pub last: String,
}

/// A product read from `product.yml`, with the directory it was read from.
pub struct Product {
    pub name: String,
    pub code: String,
    pub version: Option<String>,
    pub license: LicenseSection,
    pub signing: SigningSection,
    pub editions: Vec<String>,
    pub dir: String,
}

/// The older `product.yml` layout.
pub struct ProductYaml {
    pub product: String,
    pub editions: HashMap<String, EditionRule>,
    pub license: LicenseSection,
    pub signing: SigningSection,
}

/// The `request:` block of an application.
pub struct RequestSection {
    pub product: String,
    pub edition: String,
    pub sku: String,
    /// The application's name (`app:` in YAML)
    pub name: String,
}

/// The `signing:` block of a `product.yml`: the base name of the keypair.
pub struct SigningSection {
    pub keypair: String,
}

/// The `vendor:` block of an application: commercial terms.
pub struct VendorSection {
    pub received_on: Date,
    pub acquired: Date,
    pub price: Option<Decimal>,
    pub valid_major: Option<u8>,
    pub validity_value: Option<u8>,
    pub validity_unit: Option<String>,
    pub notes: Option<String>,
}

/// Errors of loading products and editions.
pub enum ProductError {
    ReadError(String),
    YamlError(String),
}

/// Errors of loading an application request.
pub enum AppError {
    Io(String),
    Yaml(String),
    Invalid(String),
}

} // verus!
