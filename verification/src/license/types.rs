//! The license payload, its signed form, and the outcomes of evaluation and
//! validation.
use vstd::prelude::*;

use crate::db::types::{
    DbAddress, DbApplication, DbCustomer, DbEdition, DbLicense, DbProduct, DbZipcode,
};
use crate::license::json::JsonText;
use crate::text::{dec, push_dec, push_str};
use crate::util::datetime::{date_text, push_date, Date};

verus! {

/// Whether the pipeline reuses a license or issues a new one.
pub enum LicenseDecision {
    ReuseExisting(DbLicense),
    IssueNew,
}

/// Everything the pipeline loads for one application.
pub struct LicenseBundle {
    pub application: DbApplication,
    pub product: DbProduct,
    pub edition: DbEdition,
    pub customer: DbCustomer,
    pub address: DbAddress,
    pub license: Option<DbLicense>,
    pub zipcode: DbZipcode,
    pub validity: Option<ValidityInfo>,
}

/// The customer's postal address in a payload.
pub struct AddressInfo {
    pub line1: String,
    pub line2: Option<String>,
    pub city: String,
    pub state: String,
    pub postal: String,
    pub country: String,
}

/// When the application was received and acquired.
pub struct ApplicationInfo {
    pub received: Date,
    pub acquired: Date,
}

/// The licensed customer.
pub struct CustomerInfo {
    pub name: String,
    pub email: String,
    pub address: AddressInfo,
}

/// The licensed edition.
pub struct EditionInfo {
    pub code: String,
    pub name: String,
    pub features: JsonText,
}

/// The licensed product.
pub struct ProductInfo {
    pub name: String,
    pub code: String,
    pub version: String,
    pub payload_schema: JsonText,
    pub features: JsonText,
    pub editions: JsonText,
}

/// The unit a validity period is counted in.
#[derive(Clone, Copy, Debug, PartialEq, Eq, Structural)]
pub enum ValidityUnit {
    NoExpiration,
    Days,
    Weeks,
    Months,
    Years,
}

/// When a license was issued, when it expires, and for which major version.
pub struct ValidityInfo {
    pub issued: Date,
    pub expires: Option<Date>,
    pub valid_major: Option<u8>,
    pub validity_value: Option<u16>,
    pub validity_unit: Option<ValidityUnit>,
}

/// The payload a license signs.
pub struct LicensePayload {
    pub product: ProductInfo,
    pub edition: EditionInfo,
    pub customer: CustomerInfo,
    pub application: ApplicationInfo,
    pub validity: ValidityInfo,
}

/// A canonical payload and its Base64 signature.
pub struct SignedLicense {
    pub payload_json: String,
    pub signature: String,
}

/// The verdict on a license artifact.
pub enum ValidationOutcome {
    /// Fully valid license
    Valid,
    /// Cryptographic failure
    SignatureInvalid,
    /// JSON or schema mismatch
    PayloadMalformed(String),
    /// Expired on this date
    Expired(Date),
    /// A DEMO license expired on this date
    DemoExpired(Date),
    /// A DEMO license without an expiration date
    DemoMissingExpiration,
    MajorVersionMismatch { product_major: u8, license_major: u8 },
    DemoMajorMismatch { product_major: u8, license_major: u8 },
    /// Unknown or unsupported edition
    EditionNotAllowed(String),
}

/// The mathematical reading of a [`ValidationOutcome`]: messages as
/// character sequences.
pub enum Verdict {
    Valid,
    SignatureInvalid,
    PayloadMalformed(Seq<char>),
    Expired(Date),
    DemoExpired(Date),
    DemoMissingExpiration,
    MajorVersionMismatch { product_major: u8, license_major: u8 },
    DemoMajorMismatch { product_major: u8, license_major: u8 },
    EditionNotAllowed(Seq<char>),
}

impl View for ValidationOutcome {
    type V = Verdict;

    open spec fn view(&self) -> Verdict {
        match self {
            ValidationOutcome::Valid => Verdict::Valid,
            ValidationOutcome::SignatureInvalid => Verdict::SignatureInvalid,
            ValidationOutcome::PayloadMalformed(m) => Verdict::PayloadMalformed(m@),
            ValidationOutcome::Expired(d) => Verdict::Expired(*d),
            ValidationOutcome::DemoExpired(d) => Verdict::DemoExpired(*d),
            ValidationOutcome::DemoMissingExpiration => Verdict::DemoMissingExpiration,
            ValidationOutcome::MajorVersionMismatch { product_major, license_major } =>
                Verdict::MajorVersionMismatch { product_major: *product_major, license_major: *license_major },
            ValidationOutcome::DemoMajorMismatch { product_major, license_major } =>
                Verdict::DemoMajorMismatch { product_major: *product_major, license_major: *license_major },
            ValidationOutcome::EditionNotAllowed(c) => Verdict::EditionNotAllowed(c@),
        }
    }
}

/// The error message of a verdict; `None` for a valid license.
pub open spec fn verdict_message(v: Verdict) -> Option<Seq<char>> {
    match v {
        Verdict::Valid => None,
        Verdict::SignatureInvalid => Some("Signature verification failed"@),
        Verdict::PayloadMalformed(m) => Some("Malformed payload: "@ + m),
        Verdict::Expired(d) => Some("License expired on "@ + date_text(d)),
        Verdict::DemoExpired(d) => Some("DEMO license expired on "@ + date_text(d)),
        Verdict::DemoMissingExpiration => Some("DEMO license missing expiration date"@),
        Verdict::MajorVersionMismatch { product_major, license_major } => Some(
            "Major version mismatch: product="@ + dec(product_major as nat) + ", license="@ + dec(
                license_major as nat,
            ),
        ),
        Verdict::DemoMajorMismatch { product_major, license_major } => Some(
            "DEMO major version mismatch: product="@ + dec(product_major as nat) + ", license="@
                + dec(license_major as nat),
        ),
        Verdict::EditionNotAllowed(c) => Some("Edition not allowed: "@ + c),
    }
}

impl ValidationOutcome {
    /// `Ok` for a valid license, otherwise the error message that explains
    /// the outcome.
    pub fn into_anyhow(self) -> (r: Result<(), String>)
        ensures
            match verdict_message(self@) {
                None => r is Ok,
                Some(m) => r matches Err(e) && e@ == m,
            },
    {
        let mut s = String::new();
        match self {
            ValidationOutcome::Valid => {
                return Ok(());
            },
            ValidationOutcome::SignatureInvalid => {
                push_str(&mut s, "Signature verification failed");
            },
            ValidationOutcome::PayloadMalformed(msg) => {
                push_str(&mut s, "Malformed payload: ");
                push_str(&mut s, msg.as_str());
            },
            ValidationOutcome::Expired(date) => {
                push_str(&mut s, "License expired on ");
                push_date(&mut s, date);
            },
            ValidationOutcome::DemoExpired(date) => {
                push_str(&mut s, "DEMO license expired on ");
                push_date(&mut s, date);
            },
            ValidationOutcome::DemoMissingExpiration => {
                push_str(&mut s, "DEMO license missing expiration date");
            },
            ValidationOutcome::MajorVersionMismatch { product_major, license_major } => {
                push_str(&mut s, "Major version mismatch: product=");
                push_dec(&mut s, product_major as u64);
                push_str(&mut s, ", license=");
                push_dec(&mut s, license_major as u64);
            },
            ValidationOutcome::DemoMajorMismatch { product_major, license_major } => {
                push_str(&mut s, "DEMO major version mismatch: product=");
                push_dec(&mut s, product_major as u64);
                push_str(&mut s, ", license=");
                push_dec(&mut s, license_major as u64);
            },
            ValidationOutcome::EditionNotAllowed(code) => {
                push_str(&mut s, "Edition not allowed: ");
                push_str(&mut s, code.as_str());
            },
        }
        Err(s)
    }

    /// Whether the license is valid.
    pub fn is_ok(&self) -> (r: bool)
        ensures
            r == (self@ is Valid),
    {
        match self {
            ValidationOutcome::Valid => true,
            _ => false,
        }
    }

    /// Whether the license is not valid.
    pub fn is_err(&self) -> (r: bool)
        ensures
            r == !(self@ is Valid),
    {
        !self.is_ok()
    }
}

} // verus!
