//! The canonical JSON text of a license payload.
//!
//! The text is what serde_json writes for the payload turned into a
//! `serde_json::Value`: compact, object keys in sorted order, strings
//! escaped as serde_json escapes them, dates as ISO strings, absent options
//! as `null`, enum units by their variant names.
use vstd::prelude::*;

use crate::license::types::{
    AddressInfo, ApplicationInfo, CustomerInfo, EditionInfo, LicensePayload, ProductInfo,
    ValidityInfo, ValidityUnit,
};
use crate::text::{dec, json_string, push_dec, push_json_string, push_str};
use crate::util::datetime::{date_text, date_to_string, Date};

verus! {

pub open spec fn json_opt_string(o: Option<String>) -> Seq<char> {
    match o {
        Some(s) => json_string(s@),
        None => "null"@,
    }
}

pub open spec fn json_date(d: Date) -> Seq<char> {
    json_string(date_text(d))
}

pub open spec fn json_opt_date(o: Option<Date>) -> Seq<char> {
    match o {
        Some(d) => json_date(d),
        None => "null"@,
    }
}

pub open spec fn json_opt_u8(o: Option<u8>) -> Seq<char> {
    match o {
        Some(v) => dec(v as nat),
        None => "null"@,
    }
}

pub open spec fn json_opt_u16(o: Option<u16>) -> Seq<char> {
    match o {
        Some(v) => dec(v as nat),
        None => "null"@,
    }
}

/// The name serde writes for a unit.
pub open spec fn unit_name(u: ValidityUnit) -> Seq<char> {
    match u {
        ValidityUnit::NoExpiration => "NoExpiration"@,
        ValidityUnit::Days => "Days"@,
        ValidityUnit::Weeks => "Weeks"@,
        ValidityUnit::Months => "Months"@,
        ValidityUnit::Years => "Years"@,
    }
}

pub open spec fn json_opt_unit(o: Option<ValidityUnit>) -> Seq<char> {
    match o {
        Some(u) => json_string(unit_name(u)),
        None => "null"@,
    }
}

pub open spec fn address_json(a: AddressInfo) -> Seq<char> {
    "{\"city\":"@ + json_string(a.city@) + ",\"country\":"@ + json_string(a.country@)
        + ",\"line1\":"@ + json_string(a.line1@) + ",\"line2\":"@ + json_opt_string(a.line2)
        + ",\"postal\":"@ + json_string(a.postal@) + ",\"state\":"@ + json_string(a.state@) + "}"@
}

pub open spec fn application_json(a: ApplicationInfo) -> Seq<char> {
    "{\"acquired\":"@ + json_date(a.acquired) + ",\"received\":"@ + json_date(a.received) + "}"@
}

pub open spec fn customer_json(c: CustomerInfo) -> Seq<char> {
    "{\"address\":"@ + address_json(c.address) + ",\"email\":"@ + json_string(c.email@)
        + ",\"name\":"@ + json_string(c.name@) + "}"@
}

pub open spec fn edition_json(e: EditionInfo) -> Seq<char> {
    "{\"code\":"@ + json_string(e.code@) + ",\"features\":"@ + e.features@ + ",\"name\":"@
        + json_string(e.name@) + "}"@
}

pub open spec fn product_json(p: ProductInfo) -> Seq<char> {
    "{\"code\":"@ + json_string(p.code@) + ",\"editions\":"@ + p.editions@ + ",\"features\":"@
        + p.features@ + ",\"name\":"@ + json_string(p.name@) + ",\"payload_schema\":"@
        + p.payload_schema@ + ",\"version\":"@ + json_string(p.version@) + "}"@
}

pub open spec fn validity_json(v: ValidityInfo) -> Seq<char> {
    "{\"expires\":"@ + json_opt_date(v.expires) + ",\"issued\":"@ + json_date(v.issued)
        + ",\"valid_major\":"@ + json_opt_u8(v.valid_major) + ",\"validity_unit\":"@
        + json_opt_unit(v.validity_unit) + ",\"validity_value\":"@ + json_opt_u16(
        v.validity_value,
    ) + "}"@
}

/// The canonical JSON text of a payload.
pub open spec fn payload_json(p: LicensePayload) -> Seq<char> {
    "{\"application\":"@ + application_json(p.application) + ",\"customer\":"@ + customer_json(
        p.customer,
    ) + ",\"edition\":"@ + edition_json(p.edition) + ",\"product\":"@ + product_json(p.product)
        + ",\"validity\":"@ + validity_json(p.validity) + "}"@
}

fn push_opt_string(s: &mut String, o: &Option<String>)
    ensures
        final(s)@ == old(s)@ + json_opt_string(*o),
{
    match o {
        Some(t) => push_json_string(s, t.as_str()),
        None => push_str(s, "null"),
    }
}

fn push_date_json(s: &mut String, d: Date)
    ensures
        final(s)@ == old(s)@ + json_date(d),
{
    let t = date_to_string(d);
    push_json_string(s, t.as_str());
}

fn push_opt_date(s: &mut String, o: Option<Date>)
    ensures
        final(s)@ == old(s)@ + json_opt_date(o),
{
    match o {
        Some(d) => push_date_json(s, d),
        None => push_str(s, "null"),
    }
}

fn push_opt_u8(s: &mut String, o: Option<u8>)
    ensures
        final(s)@ == old(s)@ + json_opt_u8(o),
{
    match o {
        Some(v) => push_dec(s, v as u64),
        None => push_str(s, "null"),
    }
}

fn push_opt_u16(s: &mut String, o: Option<u16>)
    ensures
        final(s)@ == old(s)@ + json_opt_u16(o),
{
    match o {
        Some(v) => push_dec(s, v as u64),
        None => push_str(s, "null"),
    }
}

fn push_opt_unit(s: &mut String, o: Option<ValidityUnit>)
    ensures
        final(s)@ == old(s)@ + json_opt_unit(o),
{
    match o {
        Some(ValidityUnit::NoExpiration) => push_json_string(s, "NoExpiration"),
        Some(ValidityUnit::Days) => push_json_string(s, "Days"),
        Some(ValidityUnit::Weeks) => push_json_string(s, "Weeks"),
        Some(ValidityUnit::Months) => push_json_string(s, "Months"),
        Some(ValidityUnit::Years) => push_json_string(s, "Years"),
        None => push_str(s, "null"),
    }
}

fn push_address(s: &mut String, a: &AddressInfo)
    ensures
        final(s)@ == old(s)@ + address_json(*a),
{
    let ghost s0 = s@;
    push_str(s, "{\"city\":");
    push_json_string(s, a.city.as_str());
    push_str(s, ",\"country\":");
    push_json_string(s, a.country.as_str());
    push_str(s, ",\"line1\":");
    push_json_string(s, a.line1.as_str());
    push_str(s, ",\"line2\":");
    push_opt_string(s, &a.line2);
    push_str(s, ",\"postal\":");
    push_json_string(s, a.postal.as_str());
    push_str(s, ",\"state\":");
    push_json_string(s, a.state.as_str());
    push_str(s, "}");
    assert(s@ =~= s0 + address_json(*a));
}

fn push_application(s: &mut String, a: &ApplicationInfo)
    ensures
        final(s)@ == old(s)@ + application_json(*a),
{
    let ghost s0 = s@;
    push_str(s, "{\"acquired\":");
    push_date_json(s, a.acquired);
    push_str(s, ",\"received\":");
    push_date_json(s, a.received);
    push_str(s, "}");
    assert(s@ =~= s0 + application_json(*a));
}

fn push_customer(s: &mut String, c: &CustomerInfo)
    ensures
        final(s)@ == old(s)@ + customer_json(*c),
{
    let ghost s0 = s@;
    push_str(s, "{\"address\":");
    push_address(s, &c.address);
    push_str(s, ",\"email\":");
    push_json_string(s, c.email.as_str());
    push_str(s, ",\"name\":");
    push_json_string(s, c.name.as_str());
    push_str(s, "}");
    assert(s@ =~= s0 + customer_json(*c));
}

fn push_edition(s: &mut String, e: &EditionInfo)
    ensures
        final(s)@ == old(s)@ + edition_json(*e),
{
    let ghost s0 = s@;
    push_str(s, "{\"code\":");
    push_json_string(s, e.code.as_str());
    push_str(s, ",\"features\":");
    push_str(s, e.features.as_str());
    push_str(s, ",\"name\":");
    push_json_string(s, e.name.as_str());
    push_str(s, "}");
    assert(s@ =~= s0 + edition_json(*e));
}

fn push_product(s: &mut String, p: &ProductInfo)
    ensures
        final(s)@ == old(s)@ + product_json(*p),
{
    let ghost s0 = s@;
    push_str(s, "{\"code\":");
    push_json_string(s, p.code.as_str());
    push_str(s, ",\"editions\":");
    push_str(s, p.editions.as_str());
    push_str(s, ",\"features\":");
    push_str(s, p.features.as_str());
    push_str(s, ",\"name\":");
    push_json_string(s, p.name.as_str());
    push_str(s, ",\"payload_schema\":");
    push_str(s, p.payload_schema.as_str());
    push_str(s, ",\"version\":");
    push_json_string(s, p.version.as_str());
    push_str(s, "}");
    assert(s@ =~= s0 + product_json(*p));
}

fn push_validity(s: &mut String, v: &ValidityInfo)
    ensures
        final(s)@ == old(s)@ + validity_json(*v),
{
    let ghost s0 = s@;
    push_str(s, "{\"expires\":");
    push_opt_date(s, v.expires);
    push_str(s, ",\"issued\":");
    push_date_json(s, v.issued);
    push_str(s, ",\"valid_major\":");
    push_opt_u8(s, v.valid_major);
    push_str(s, ",\"validity_unit\":");
    push_opt_unit(s, v.validity_unit);
    push_str(s, ",\"validity_value\":");
    push_opt_u16(s, v.validity_value);
    push_str(s, "}");
    assert(s@ =~= s0 + validity_json(*v));
}

/// The canonical JSON text of a payload.
pub fn canonical_payload_json(p: &LicensePayload) -> (r: String)
    ensures
        r@ == payload_json(*p),
{
    let mut s = String::new();
    push_str(&mut s, "{\"application\":");
    push_application(&mut s, &p.application);
    push_str(&mut s, ",\"customer\":");
    push_customer(&mut s, &p.customer);
    push_str(&mut s, ",\"edition\":");
    push_edition(&mut s, &p.edition);
    push_str(&mut s, ",\"product\":");
    push_product(&mut s, &p.product);
    push_str(&mut s, ",\"validity\":");
    push_validity(&mut s, &p.validity);
    push_str(&mut s, "}");
    assert(s@ =~= payload_json(*p));
    s
}

} // verus!
