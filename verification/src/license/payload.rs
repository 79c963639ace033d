//! Building the canonical payload from database rows.
use vstd::prelude::*;

use crate::db::types::{DbAddress, DbApplication, DbCustomer, DbEdition, DbProduct, DbZipcode};
use crate::license::errors::PayloadError;
use crate::license::json::{canonical_json, JsonText};
use crate::license::types::{
    AddressInfo, ApplicationInfo, CustomerInfo, EditionInfo, LicensePayload, ProductInfo,
    ValidityInfo,
};
use crate::text::{dec_zero_padded, push_char, push_dec_padded, push_str};

verus! {

/// The first address line: `PO Box <maildrop>` when there is a maildrop,
/// else the street; `None` when there is neither.
pub open spec fn address_line1(a: DbAddress) -> Option<Seq<char>> {
    match a.maildrop {
        Some(po) => Some("PO Box "@ + po@),
        None => match a.street {
            Some(st) => Some(st@),
            None => None,
        },
    }
}

/// The postal code: the five-digit ZIP, with `-` and the four-digit
/// extension when there is one.
pub open spec fn postal_code(a: DbAddress) -> Seq<char> {
    match a.zip4 {
        Some(z4) => dec_zero_padded(a.zip as nat, 5) + seq!['-'] + dec_zero_padded(z4 as nat, 4),
        None => dec_zero_padded(a.zip as nat, 5),
    }
}

/// An optional text, or a fallback.
pub open spec fn or_else(o: Option<String>, fallback: Seq<char>) -> Seq<char> {
    match o {
        Some(s) => s@,
        None => fallback,
    }
}

/// Whether an address block is the one the rows give: line 1 as above, the
/// suite as line 2, the postal code, city and state from the address where
/// it has them and from the ZIP code table otherwise, and the country.
pub open spec fn address_info_of(a: DbAddress, z: DbZipcode, info: AddressInfo) -> bool {
    &&& address_line1(a) == Some(info.line1@)
    &&& info.line2 == a.suite
    &&& info.postal@ == postal_code(a)
    &&& info.city@ == or_else(a.city, z.city@)
    &&& info.state@ == or_else(a.state, z.state@)
    &&& info.country@ == a.country@
}

fn clone_opt_string(o: &Option<String>) -> (r: Option<String>)
    ensures
        r == *o,
{
    match o {
        Some(s) => Some(s.clone()),
        None => None,
    }
}

/// Builds the address block of a payload.
pub fn build_address_info(addr: &DbAddress, zip: &DbZipcode) -> (r: Result<AddressInfo, PayloadError>)
    ensures
        r is Err <==> address_line1(*addr) is None,
        r matches Err(e) ==> e is MissingAddressLine,
        r matches Ok(info) ==> address_info_of(*addr, *zip, info),
{
    let line1 = match &addr.maildrop {
        Some(po) => {
            let mut s = String::new();
            push_str(&mut s, "PO Box ");
            push_str(&mut s, po.as_str());
            s
        },
        None => match &addr.street {
            Some(street) => street.clone(),
            None => return Err(PayloadError::MissingAddressLine),
        },
    };
    let line2 = clone_opt_string(&addr.suite);
    let mut postal = String::new();
    push_dec_padded(&mut postal, addr.zip as u64, 5);
    match addr.zip4 {
        Some(z4) => {
            push_char(&mut postal, '-');
            push_dec_padded(&mut postal, z4 as u64, 4);
        },
        None => {},
    }
    let city = match &addr.city {
        Some(c) => c.clone(),
        None => zip.city.clone(),
    };
    let state = match &addr.state {
        Some(s) => s.clone(),
        None => zip.state.clone(),
    };
    let info = AddressInfo { line1, line2, city, state, postal, country: addr.country.clone() };
    assert(info.postal@ =~= postal_code(*addr));
    Ok(info)
}

/// Builds the customer block: `first last`, the email, the address.
pub fn build_customer_info(cust: &DbCustomer, address: AddressInfo) -> (r: CustomerInfo)
    ensures
        r.name@ == cust.first@ + seq![' '] + cust.last@,
        r.email@ == cust.email@,
        r.address == address,
{
    let mut name = String::new();
    push_str(&mut name, cust.first.as_str());
    push_char(&mut name, ' ');
    push_str(&mut name, cust.last.as_str());
    CustomerInfo { name, email: cust.email.clone(), address }
}

/// Builds the edition block: code, name, and the metadata column as JSON.
pub fn build_edition_info(ed: &DbEdition) -> (r: Result<EditionInfo, PayloadError>)
    ensures
        r is Ok <==> canonical_json(ed.metadata@) is Some,
        r matches Err(e) ==> e is InvalidJson,
        r matches Ok(info) ==> info.code@ == ed.edition_code@ && info.name@ == ed.name@
            && Some(info.features@) == canonical_json(ed.metadata@),
{
    let features = match JsonText::parse(ed.metadata.as_str()) {
        Some(j) => j,
        None => return Err(PayloadError::InvalidJson),
    };
    Ok(EditionInfo { code: ed.edition_code.clone(), name: ed.name.clone(), features })
}

/// The version a product states, `0` where it states none.
pub open spec fn product_version(p: DbProduct) -> Seq<char> {
    match p.version {
        Some(v) => v@,
        None => seq!['0'],
    }
}

/// The canonical text of a product's editions column; `[]` where it has
/// none.
pub open spec fn editions_json(p: DbProduct) -> Option<Seq<char>> {
    match p.editions {
        Some(e) => canonical_json(e@),
        None => Some(seq!['[', ']']),
    }
}

/// Whether every JSON column of a product holds JSON serde_json can read and
/// write back.
pub open spec fn product_json_ok(p: DbProduct) -> bool {
    &&& canonical_json(p.payload_schema@) is Some
    &&& canonical_json(p.features@) is Some
    &&& editions_json(p) is Some
}

/// Builds the product block: name, code, version (`0` when missing), and
/// the JSON columns; a product without editions lists none (`[]`).
pub fn build_product_info(p: &DbProduct) -> (r: Result<ProductInfo, PayloadError>)
    ensures
        r is Ok <==> product_json_ok(*p),
        r matches Err(e) ==> e is InvalidJson,
        r matches Ok(info) ==> {
            &&& info.name@ == p.name@
            &&& info.code@ == p.code@
            &&& info.version@ == product_version(*p)
            &&& Some(info.payload_schema@) == canonical_json(p.payload_schema@)
            &&& Some(info.features@) == canonical_json(p.features@)
            &&& Some(info.editions@) == editions_json(*p)
        },
{
    let version = match &p.version {
        Some(v) => v.clone(),
        None => {
            let mut s = String::new();
            push_char(&mut s, '0');
            s
        },
    };
    let payload_schema = match JsonText::parse(p.payload_schema.as_str()) {
        Some(j) => j,
        None => return Err(PayloadError::InvalidJson),
    };
    let features = match JsonText::parse(p.features.as_str()) {
        Some(j) => j,
        None => return Err(PayloadError::InvalidJson),
    };
    let editions = match &p.editions {
        Some(json) => match JsonText::parse(json.as_str()) {
            Some(j) => j,
            None => return Err(PayloadError::InvalidJson),
        },
        None => JsonText::empty_array(),
    };
    Ok(ProductInfo { name: p.name.clone(), code: p.code.clone(), version, payload_schema, features, editions })
}

/// Builds the application block: when it was received and acquired.
pub fn build_application_info(app: &DbApplication) -> (r: ApplicationInfo)
    ensures
        r.received == app.received,
        r.acquired == app.acquired,
{
    ApplicationInfo { received: app.received, acquired: app.acquired }
}

/// Whether every row of an application gives its payload block: an address
/// line, and JSON serde_json reads and writes back in the edition and product
/// columns.
pub open spec fn rows_ok(address: DbAddress, edition: DbEdition, product: DbProduct) -> bool {
    &&& address_line1(address) is Some
    &&& canonical_json(edition.metadata@) is Some
    &&& product_json_ok(product)
}

/// Whether a payload is the one the rows of an application give, with the
/// validity.
pub open spec fn payload_built(
    app: DbApplication,
    product: DbProduct,
    edition: DbEdition,
    customer: DbCustomer,
    address: DbAddress,
    zipcode: DbZipcode,
    validity: ValidityInfo,
    p: LicensePayload,
) -> bool {
    &&& address_info_of(address, zipcode, p.customer.address)
    &&& p.customer.name@ == customer.first@ + seq![' '] + customer.last@
    &&& p.customer.email@ == customer.email@
    &&& p.edition.code@ == edition.edition_code@
    &&& p.edition.name@ == edition.name@
    &&& Some(p.edition.features@) == canonical_json(edition.metadata@)
    &&& p.product.name@ == product.name@
    &&& p.product.code@ == product.code@
    &&& p.product.version@ == product_version(product)
    &&& Some(p.product.payload_schema@) == canonical_json(product.payload_schema@)
    &&& Some(p.product.features@) == canonical_json(product.features@)
    &&& Some(p.product.editions@) == editions_json(product)
    &&& p.application.received == app.received
    &&& p.application.acquired == app.acquired
    &&& p.validity == validity
}

/// Builds the canonical payload from the rows of one application.
pub fn build_payload(
    app: &DbApplication,
    product: &DbProduct,
    edition: &DbEdition,
    customer: &DbCustomer,
    address: &DbAddress,
    zipcode: &DbZipcode,
    validity: ValidityInfo,
) -> (r: Result<LicensePayload, PayloadError>)
    ensures
        r is Ok <==> rows_ok(*address, *edition, *product),
        r matches Err(e) ==> (if address_line1(*address) is None {
            e is MissingAddressLine
        } else {
            e is InvalidJson
        }),
        r matches Ok(p) ==> payload_built(*app, *product, *edition, *customer, *address, *zipcode, validity, p),
{
    let address_info = build_address_info(address, zipcode)?;
    let customer_info = build_customer_info(customer, address_info);
    let edition_info = build_edition_info(edition)?;
    let product_info = build_product_info(product)?;
    let application_info = build_application_info(app);
    Ok(LicensePayload {
        product: product_info,
        edition: edition_info,
        customer: customer_info,
        application: application_info,
        validity,
    })
}

} // verus!
