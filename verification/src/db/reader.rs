//! Putting together the rows loaded for one application.
use vstd::prelude::*;

use crate::db::types::{DbAddress, DbApplication, DbCustomer, DbEdition, DbLicense, DbProduct, DbZipcode};
use crate::license::types::{LicenseBundle, ValidityInfo};

verus! {

/// The validity an existing license carries: its issue and expiry dates and
/// its major version; the value and unit it was granted with are not kept
/// with the license.
pub open spec fn license_validity(l: DbLicense) -> ValidityInfo {
    ValidityInfo {
        issued: l.issued,
        expires: l.expires,
        valid_major: l.valid_major,
        validity_value: None,
        validity_unit: None,
    }
}

/// The bundle of an application's rows, with the validity of its license
/// where it has one.
pub fn assemble_bundle(
    application: DbApplication,
    product: DbProduct,
    edition: DbEdition,
    customer: DbCustomer,
    address: DbAddress,
    zipcode: DbZipcode,
    license: Option<DbLicense>,
) -> (r: LicenseBundle)
    ensures
        r.application == application,
        r.product == product,
        r.edition == edition,
        r.customer == customer,
        r.address == address,
        r.zipcode == zipcode,
        r.license == license,
        r.validity == match license {
            Some(l) => Some(license_validity(l)),
            None => None,
        },
{
    let validity = match &license {
        Some(l) => Some(ValidityInfo {
            issued: l.issued,
            expires: l.expires,
            valid_major: l.valid_major,
            validity_value: None,
            validity_unit: None,
        }),
        None => None,
    };
    LicenseBundle { application, product, edition, customer, address, license, zipcode, validity }
}

} // verus!
