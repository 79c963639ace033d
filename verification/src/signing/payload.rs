//! The record types of the signing pipeline: customers, licenses, and the
//! flat license payload.
use vstd::prelude::*;

use crate::license::json::JsonText;
use crate::product::types::{Application, Edition};
use crate::util::datetime::{Date, DateTime};

verus! {

/// A postal address record.
pub struct Address {
    pub id: i64,
    pub maildrop: String,
    pub street: String,
    pub suite: Option<String>,
    pub zip: i64,
    pub zip4: u8,
    pub city: Option<String>,
    pub state: Option<String>,
    pub country: Option<String>,
}

/// A customer record.
pub struct Customer {
    pub id: i64,
    pub name: String,
    pub email: String,
    pub updated: DateTime,
}

/// A customer with its address and ZIP code.
pub struct CustomerBundle {
    pub customer: Customer,
    pub address: Address,
    pub zipcode: ZipCode,
}

/// A generated license as the signing pipeline records it.
pub struct GeneratedLicense {
    pub application_id: i64,
    pub customer_id: i64,
    pub edition_id: i64,
    pub application_name: String,
    pub received: Date,
    pub acquired: Date,
    pub status: String,
    pub issued: DateTime,
    pub expires: Option<DateTime>,
    pub payload: JsonText,
    pub signature: String,
    pub public_key_pem: String,
}

/// A license record.
pub struct License {
    pub id: i64,
    pub application_id: i64,
    pub edition_id: i64,
    pub version: Option<String>,
    pub payload: JsonText,
    pub features: JsonText,
    pub signature: String,
    pub issued: DateTime,
    pub expires: Option<DateTime>,
    pub revoked: bool,
}

/// A license with its application and edition.
pub struct LicenseBundle {
    pub license: License,
    pub application: Application,
    pub edition: Edition,
}

/// The flat license payload of the signing pipeline.
pub struct LicensePayload {
    pub email: String,
    /// ISO date `YYYY-MM-DD`
    pub acquired: String,
    /// `DEV`, `PRO`, `ENT`
    pub edition: String,
    pub valid_major: u32,
}

/// A ZIP code record.
pub struct ZipCode {
    pub id: i64,
    pub zip: String,
    pub city: String,
    pub state: String,
}

} // verus!
