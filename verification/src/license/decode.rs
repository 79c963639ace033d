//! Reading a license payload from a JSON value, field by field as serde's
//! derived `Deserialize` reads the payload's structs from serde_json's
//! values.  A struct is an object or an array.  In an object, required
//! members must be present with the right type, optional members may be
//! absent or null, and members the struct does not name are ignored.  An
//! array must hold exactly one element per field, in the order the fields
//! are declared, optional ones as null or a value.
use vstd::prelude::*;

use crate::license::canonical::unit_name;
use crate::license::json::{
    json_as_str, json_as_u64, json_get, json_member, json_str, json_u64, opt_text, serde_json_text, Json,
    JsonText,
};
use crate::license::types::{
    AddressInfo, ApplicationInfo, CustomerInfo, EditionInfo, LicensePayload, ProductInfo, ValidityInfo,
    ValidityUnit,
};
use crate::text::str_eq;
use crate::util::datetime::{chrono_parse_date, Date};

verus! {

/// The field of a struct that has `count` fields, this one named `key` and
/// declared at `index`: the member under the key of an object, or the
/// element at the index of an array of exactly `count` elements.
pub open spec fn field_of(v: Json, key: Seq<char>, index: int, count: int) -> Option<Json> {
    match v {
        Json::Object(_) => json_get(v, key),
        Json::Array(items) => if items@.len() == count && 0 <= index < count {
            Some(items@[index])
        } else {
            None
        },
        _ => None,
    }
}

/// A string field.
pub open spec fn str_member(v: Json, key: Seq<char>, index: int, count: int) -> Option<Seq<char>> {
    match field_of(v, key, index, count) {
        Some(m) => json_str(m),
        None => None,
    }
}

/// A field that is present and not null.
pub open spec fn present_member(v: Json, key: Seq<char>, index: int, count: int) -> Option<Json> {
    match field_of(v, key, index, count) {
        Some(m) => if m is Null {
            None
        } else {
            Some(m)
        },
        None => None,
    }
}

/// An optional string field: `Some(None)` where it is absent or null,
/// `Some(Some(s))` for a string, `None` for anything else.
pub open spec fn opt_str_member(v: Json, key: Seq<char>, index: int, count: int) -> Option<Option<Seq<char>>> {
    match present_member(v, key, index, count) {
        None => Some(None),
        Some(m) => match json_str(m) {
            Some(s) => Some(Some(s)),
            None => None,
        },
    }
}

/// A date field: the day number of the ISO date its string names.
pub open spec fn day_member(v: Json, key: Seq<char>, index: int, count: int) -> Option<i32> {
    match str_member(v, key, index, count) {
        Some(s) => chrono_parse_date(s),
        None => None,
    }
}

/// An optional date field.
pub open spec fn opt_day_member(v: Json, key: Seq<char>, index: int, count: int) -> Option<Option<i32>> {
    match present_member(v, key, index, count) {
        None => Some(None),
        Some(m) => match json_str(m) {
            Some(s) => match chrono_parse_date(s) {
                Some(d) => Some(Some(d)),
                None => None,
            },
            None => None,
        },
    }
}

/// An optional integer field of at most `max`.
pub open spec fn opt_int_member(v: Json, key: Seq<char>, index: int, count: int, max: u64) -> Option<Option<u64>> {
    match present_member(v, key, index, count) {
        None => Some(None),
        Some(m) => match json_u64(m) {
            Some(n) => if n <= max {
                Some(Some(n))
            } else {
                None
            },
            None => None,
        },
    }
}

/// The unit a variant name names.
pub open spec fn unit_of_name(s: Seq<char>) -> Option<ValidityUnit> {
    if s == unit_name(ValidityUnit::NoExpiration) {
        Some(ValidityUnit::NoExpiration)
    } else if s == unit_name(ValidityUnit::Days) {
        Some(ValidityUnit::Days)
    } else if s == unit_name(ValidityUnit::Weeks) {
        Some(ValidityUnit::Weeks)
    } else if s == unit_name(ValidityUnit::Months) {
        Some(ValidityUnit::Months)
    } else if s == unit_name(ValidityUnit::Years) {
        Some(ValidityUnit::Years)
    } else {
        None
    }
}

/// The unit a value names: its variant name as a string, or an object whose
/// one member is the variant name with a null value.
pub open spec fn unit_of_value(m: Json) -> Option<ValidityUnit> {
    match m {
        Json::Str(s) => unit_of_name(s@),
        Json::Object(members) => if members@.len() == 1 && members@[0].1 is Null {
            unit_of_name(members@[0].0@)
        } else {
            None
        },
        _ => None,
    }
}

/// An optional unit field.
pub open spec fn opt_unit_member(v: Json, key: Seq<char>, index: int, count: int) -> Option<Option<ValidityUnit>> {
    match present_member(v, key, index, count) {
        None => Some(None),
        Some(m) => match unit_of_value(m) {
            Some(u) => Some(Some(u)),
            None => None,
        },
    }
}

/// A field held as JSON: its canonical text.
pub open spec fn text_member(v: Json, key: Seq<char>, index: int, count: int) -> Option<Seq<char>> {
    match field_of(v, key, index, count) {
        Some(m) => serde_json_text(m),
        None => None,
    }
}

/// The day number of an optional date.
pub open spec fn opt_day(o: Option<Date>) -> Option<i32> {
    match o {
        Some(d) => Some(d.day() as i32),
        None => None,
    }
}

/// An optional small integer, widened.
pub open spec fn opt_u8(o: Option<u8>) -> Option<u64> {
    match o {
        Some(n) => Some(n as u64),
        None => None,
    }
}

/// An optional integer, widened.
pub open spec fn opt_u16(o: Option<u16>) -> Option<u64> {
    match o {
        Some(n) => Some(n as u64),
        None => None,
    }
}

/// Whether a value has every field an address needs.
pub open spec fn address_shaped(v: Json) -> bool {
    &&& str_member(v, "line1"@, 0, 6) is Some
    &&& opt_str_member(v, "line2"@, 1, 6) is Some
    &&& str_member(v, "city"@, 2, 6) is Some
    &&& str_member(v, "state"@, 3, 6) is Some
    &&& str_member(v, "postal"@, 4, 6) is Some
    &&& str_member(v, "country"@, 5, 6) is Some
}

/// Whether an address holds what a value's fields say.
pub open spec fn address_fields(v: Json, a: AddressInfo) -> bool {
    &&& str_member(v, "line1"@, 0, 6) == Some(a.line1@)
    &&& opt_str_member(v, "line2"@, 1, 6) == Some(opt_text(a.line2))
    &&& str_member(v, "city"@, 2, 6) == Some(a.city@)
    &&& str_member(v, "state"@, 3, 6) == Some(a.state@)
    &&& str_member(v, "postal"@, 4, 6) == Some(a.postal@)
    &&& str_member(v, "country"@, 5, 6) == Some(a.country@)
}

pub open spec fn customer_shaped(v: Json) -> bool {
    &&& str_member(v, "name"@, 0, 3) is Some
    &&& str_member(v, "email"@, 1, 3) is Some
    &&& field_of(v, "address"@, 2, 3) matches Some(a) && address_shaped(a)
}

pub open spec fn customer_fields(v: Json, c: CustomerInfo) -> bool {
    &&& str_member(v, "name"@, 0, 3) == Some(c.name@)
    &&& str_member(v, "email"@, 1, 3) == Some(c.email@)
    &&& field_of(v, "address"@, 2, 3) matches Some(a) && address_fields(a, c.address)
}

pub open spec fn edition_shaped(v: Json) -> bool {
    &&& str_member(v, "code"@, 0, 3) is Some
    &&& str_member(v, "name"@, 1, 3) is Some
    &&& text_member(v, "features"@, 2, 3) is Some
}

pub open spec fn edition_fields(v: Json, e: EditionInfo) -> bool {
    &&& str_member(v, "code"@, 0, 3) == Some(e.code@)
    &&& str_member(v, "name"@, 1, 3) == Some(e.name@)
    &&& text_member(v, "features"@, 2, 3) == Some(e.features@)
}

pub open spec fn product_shaped(v: Json) -> bool {
    &&& str_member(v, "name"@, 0, 6) is Some
    &&& str_member(v, "code"@, 1, 6) is Some
    &&& str_member(v, "version"@, 2, 6) is Some
    &&& text_member(v, "payload_schema"@, 3, 6) is Some
    &&& text_member(v, "features"@, 4, 6) is Some
    &&& text_member(v, "editions"@, 5, 6) is Some
}

pub open spec fn product_fields(v: Json, p: ProductInfo) -> bool {
    &&& str_member(v, "name"@, 0, 6) == Some(p.name@)
    &&& str_member(v, "code"@, 1, 6) == Some(p.code@)
    &&& str_member(v, "version"@, 2, 6) == Some(p.version@)
    &&& text_member(v, "payload_schema"@, 3, 6) == Some(p.payload_schema@)
    &&& text_member(v, "features"@, 4, 6) == Some(p.features@)
    &&& text_member(v, "editions"@, 5, 6) == Some(p.editions@)
}

pub open spec fn application_shaped(v: Json) -> bool {
    &&& day_member(v, "received"@, 0, 2) is Some
    &&& day_member(v, "acquired"@, 1, 2) is Some
}

pub open spec fn application_fields(v: Json, a: ApplicationInfo) -> bool {
    &&& day_member(v, "received"@, 0, 2) == Some(a.received.day() as i32)
    &&& day_member(v, "acquired"@, 1, 2) == Some(a.acquired.day() as i32)
}

pub open spec fn validity_shaped(v: Json) -> bool {
    &&& day_member(v, "issued"@, 0, 5) is Some
    &&& opt_day_member(v, "expires"@, 1, 5) is Some
    &&& opt_int_member(v, "valid_major"@, 2, 5, 255) is Some
    &&& opt_int_member(v, "validity_value"@, 3, 5, 65535) is Some
    &&& opt_unit_member(v, "validity_unit"@, 4, 5) is Some
}

pub open spec fn validity_fields(v: Json, x: ValidityInfo) -> bool {
    &&& day_member(v, "issued"@, 0, 5) == Some(x.issued.day() as i32)
    &&& opt_day_member(v, "expires"@, 1, 5) == Some(opt_day(x.expires))
    &&& opt_int_member(v, "valid_major"@, 2, 5, 255) == Some(opt_u8(x.valid_major))
    &&& opt_int_member(v, "validity_value"@, 3, 5, 65535) == Some(opt_u16(x.validity_value))
    &&& opt_unit_member(v, "validity_unit"@, 4, 5) == Some(x.validity_unit)
}

/// Whether a value has the shape of a license payload.
pub open spec fn payload_shaped(v: Json) -> bool {
    &&& field_of(v, "product"@, 0, 5) matches Some(m) && product_shaped(m)
    &&& field_of(v, "edition"@, 1, 5) matches Some(m) && edition_shaped(m)
    &&& field_of(v, "customer"@, 2, 5) matches Some(m) && customer_shaped(m)
    &&& field_of(v, "application"@, 3, 5) matches Some(m) && application_shaped(m)
    &&& field_of(v, "validity"@, 4, 5) matches Some(m) && validity_shaped(m)
}

/// Whether a payload holds what a value's fields say.
pub open spec fn payload_fields(v: Json, p: LicensePayload) -> bool {
    &&& field_of(v, "product"@, 0, 5) matches Some(m) && product_fields(m, p.product)
    &&& field_of(v, "edition"@, 1, 5) matches Some(m) && edition_fields(m, p.edition)
    &&& field_of(v, "customer"@, 2, 5) matches Some(m) && customer_fields(m, p.customer)
    &&& field_of(v, "application"@, 3, 5) matches Some(m) && application_fields(m, p.application)
    &&& field_of(v, "validity"@, 4, 5) matches Some(m) && validity_fields(m, p.validity)
}

/// The field of a struct with `count` fields named `key` and declared at
/// `index`.
fn struct_field<'a>(v: &'a Json, key: &str, index: usize, count: usize) -> (r: Option<&'a Json>)
    ensures
        match r {
            Some(m) => field_of(*v, key@, index as int, count as int) == Some(*m),
            None => field_of(*v, key@, index as int, count as int) is None,
        },
{
    match v {
        Json::Object(_) => json_member(v, key),
        Json::Array(items) => {
            if items.len() == count && index < count {
                Some(&items[index])
            } else {
                None
            }
        },
        _ => None,
    }
}

fn member_str(v: &Json, key: &str, index: usize, count: usize) -> (r: Option<String>)
    ensures
        opt_text(r) == str_member(*v, key@, index as int, count as int),
{
    match struct_field(v, key, index, count) {
        Some(m) => json_as_str(m),
        None => None,
    }
}

fn member_opt<'a>(v: &'a Json, key: &str, index: usize, count: usize) -> (r: Option<&'a Json>)
    ensures
        match r {
            Some(m) => present_member(*v, key@, index as int, count as int) == Some(*m),
            None => present_member(*v, key@, index as int, count as int) is None,
        },
{
    match struct_field(v, key, index, count) {
        Some(m) => match m {
            Json::Null => None,
            _ => Some(m),
        },
        None => None,
    }
}

fn member_opt_str(v: &Json, key: &str, index: usize, count: usize) -> (r: Option<Option<String>>)
    ensures
        match r {
            Some(o) => opt_str_member(*v, key@, index as int, count as int) == Some(opt_text(o)),
            None => opt_str_member(*v, key@, index as int, count as int) is None,
        },
{
    match member_opt(v, key, index, count) {
        None => Some(None),
        Some(m) => match json_as_str(m) {
            Some(s) => Some(Some(s)),
            None => None,
        },
    }
}

fn member_date(v: &Json, key: &str, index: usize, count: usize) -> (r: Option<Date>)
    ensures
        match r {
            Some(d) => day_member(*v, key@, index as int, count as int) == Some(d.day() as i32),
            None => day_member(*v, key@, index as int, count as int) is None,
        },
{
    match member_str(v, key, index, count) {
        Some(s) => Date::parse(s.as_str()),
        None => None,
    }
}

fn member_opt_date(v: &Json, key: &str, index: usize, count: usize) -> (r: Option<Option<Date>>)
    ensures
        match r {
            Some(o) => opt_day_member(*v, key@, index as int, count as int) == Some(opt_day(o)),
            None => opt_day_member(*v, key@, index as int, count as int) is None,
        },
{
    match member_opt(v, key, index, count) {
        None => Some(None),
        Some(m) => match json_as_str(m) {
            Some(s) => match Date::parse(s.as_str()) {
                Some(d) => Some(Some(d)),
                None => None,
            },
            None => None,
        },
    }
}

fn member_opt_u8(v: &Json, key: &str, index: usize, count: usize) -> (r: Option<Option<u8>>)
    ensures
        match r {
            Some(o) => opt_int_member(*v, key@, index as int, count as int, 255) == Some(opt_u8(o)),
            None => opt_int_member(*v, key@, index as int, count as int, 255) is None,
        },
{
    match member_opt(v, key, index, count) {
        None => Some(None),
        Some(m) => match json_as_u64(m) {
            Some(n) => if n <= 255 {
                Some(Some(n as u8))
            } else {
                None
            },
            None => None,
        },
    }
}

fn member_opt_u16(v: &Json, key: &str, index: usize, count: usize) -> (r: Option<Option<u16>>)
    ensures
        match r {
            Some(o) => opt_int_member(*v, key@, index as int, count as int, 65535) == Some(opt_u16(o)),
            None => opt_int_member(*v, key@, index as int, count as int, 65535) is None,
        },
{
    match member_opt(v, key, index, count) {
        None => Some(None),
        Some(m) => match json_as_u64(m) {
            Some(n) => if n <= 65535 {
                Some(Some(n as u16))
            } else {
                None
            },
            None => None,
        },
    }
}

/// The unit a variant name names.
pub fn unit_from_name(s: &str) -> (r: Option<ValidityUnit>)
    ensures
        r == unit_of_name(s@),
{
    if str_eq(s, "NoExpiration") {
        Some(ValidityUnit::NoExpiration)
    } else if str_eq(s, "Days") {
        Some(ValidityUnit::Days)
    } else if str_eq(s, "Weeks") {
        Some(ValidityUnit::Weeks)
    } else if str_eq(s, "Months") {
        Some(ValidityUnit::Months)
    } else if str_eq(s, "Years") {
        Some(ValidityUnit::Years)
    } else {
        None
    }
}

/// The unit a value names, as a string or as a one-member object with a
/// null value.
fn unit_from_value(m: &Json) -> (r: Option<ValidityUnit>)
    ensures
        r == unit_of_value(*m),
{
    match m {
        Json::Str(s) => unit_from_name(s.as_str()),
        Json::Object(members) => {
            if members.len() == 1 {
                match &members[0].1 {
                    Json::Null => unit_from_name(members[0].0.as_str()),
                    _ => None,
                }
            } else {
                None
            }
        },
        _ => None,
    }
}

fn member_opt_unit(v: &Json, key: &str, index: usize, count: usize) -> (r: Option<Option<ValidityUnit>>)
    ensures
        r == opt_unit_member(*v, key@, index as int, count as int),
{
    match member_opt(v, key, index, count) {
        None => Some(None),
        Some(m) => match unit_from_value(m) {
            Some(u) => Some(Some(u)),
            None => None,
        },
    }
}

fn member_json(v: &Json, key: &str, index: usize, count: usize) -> (r: Option<JsonText>)
    ensures
        match r {
            Some(t) => text_member(*v, key@, index as int, count as int) == Some(t@),
            None => text_member(*v, key@, index as int, count as int) is None,
        },
{
    match struct_field(v, key, index, count) {
        Some(m) => JsonText::from_json(m),
        None => None,
    }
}

fn decode_address(v: &Json) -> (r: Option<AddressInfo>)
    ensures
        match r {
            Some(a) => address_fields(*v, a),
            None => !address_shaped(*v),
        },
{
    let line1 = member_str(v, "line1", 0, 6)?;
    let line2 = member_opt_str(v, "line2", 1, 6)?;
    let city = member_str(v, "city", 2, 6)?;
    let state = member_str(v, "state", 3, 6)?;
    let postal = member_str(v, "postal", 4, 6)?;
    let country = member_str(v, "country", 5, 6)?;
    Some(AddressInfo { line1, line2, city, state, postal, country })
}

fn decode_customer(v: &Json) -> (r: Option<CustomerInfo>)
    ensures
        match r {
            Some(c) => customer_fields(*v, c),
            None => !customer_shaped(*v),
        },
{
    let name = member_str(v, "name", 0, 3)?;
    let email = member_str(v, "email", 1, 3)?;
    let address = decode_address(struct_field(v, "address", 2, 3)?)?;
    Some(CustomerInfo { name, email, address })
}

fn decode_edition(v: &Json) -> (r: Option<EditionInfo>)
    ensures
        match r {
            Some(e) => edition_fields(*v, e),
            None => !edition_shaped(*v),
        },
{
    let code = member_str(v, "code", 0, 3)?;
    let name = member_str(v, "name", 1, 3)?;
    let features = member_json(v, "features", 2, 3)?;
    Some(EditionInfo { code, name, features })
}

fn decode_product(v: &Json) -> (r: Option<ProductInfo>)
    ensures
        match r {
            Some(p) => product_fields(*v, p),
            None => !product_shaped(*v),
        },
{
    let name = member_str(v, "name", 0, 6)?;
    let code = member_str(v, "code", 1, 6)?;
    let version = member_str(v, "version", 2, 6)?;
    let payload_schema = member_json(v, "payload_schema", 3, 6)?;
    let features = member_json(v, "features", 4, 6)?;
    let editions = member_json(v, "editions", 5, 6)?;
    Some(ProductInfo { name, code, version, payload_schema, features, editions })
}

fn decode_application(v: &Json) -> (r: Option<ApplicationInfo>)
    ensures
        match r {
            Some(a) => application_fields(*v, a),
            None => !application_shaped(*v),
        },
{
    let received = member_date(v, "received", 0, 2)?;
    let acquired = member_date(v, "acquired", 1, 2)?;
    Some(ApplicationInfo { received, acquired })
}

fn decode_validity(v: &Json) -> (r: Option<ValidityInfo>)
    ensures
        match r {
            Some(x) => validity_fields(*v, x),
            None => !validity_shaped(*v),
        },
{
    let issued = member_date(v, "issued", 0, 5)?;
    let expires = member_opt_date(v, "expires", 1, 5)?;
    let valid_major = member_opt_u8(v, "valid_major", 2, 5)?;
    let validity_value = member_opt_u16(v, "validity_value", 3, 5)?;
    let validity_unit = member_opt_unit(v, "validity_unit", 4, 5)?;
    Some(ValidityInfo { issued, expires, valid_major, validity_value, validity_unit })
}

/// Reads a JSON value as a license payload; `None` where it does not have
/// the payload's shape.
pub fn decode_payload(v: &Json) -> (r: Option<LicensePayload>)
    ensures
        match r {
            Some(p) => payload_fields(*v, p),
            None => !payload_shaped(*v),
        },
{
    let product = decode_product(struct_field(v, "product", 0, 5)?)?;
    let edition = decode_edition(struct_field(v, "edition", 1, 5)?)?;
    let customer = decode_customer(struct_field(v, "customer", 2, 5)?)?;
    let application = decode_application(struct_field(v, "application", 3, 5)?)?;
    let validity = decode_validity(struct_field(v, "validity", 4, 5)?)?;
    Some(LicensePayload { product, edition, customer, application, validity })
}

} // verus!
