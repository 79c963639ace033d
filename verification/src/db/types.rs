//! Database row types.  Columns arrive already converted to plain values;
//! prices stay `rust_decimal::Decimal`, which the pipeline only carries.
use vstd::prelude::*;

use crate::license::json::{json_string_array, string_list_json};
use crate::product::types::Product;
use crate::text::{push_char, push_dec, push_str};
use crate::util::datetime::{epoch, is_epoch, Date, DateTime};
use rust_decimal::Decimal;

verus! {

#[verifier::external_type_specification]
#[verifier::external_body]
pub struct ExDecimal(Decimal);

/// `Decimal` is `Copy`: rust_decimal derives `Clone` and `Copy` for it, so a
/// clone is the same value.
pub assume_specification[ <Decimal as Clone>::clone ](d: &Decimal) -> (r: Decimal)
    ensures
        r == *d,
;

/// A row of `applications`.
pub struct DbApplication {
    pub id: u64,
    pub name: String,
    pub customer_id: u64,
    pub edition_id: u64,
    pub price: Decimal,
    pub valid_major: Option<u8>,
    pub validity_value: u16,
    pub validity_unit: Option<String>,
    pub raw_yaml: String,
    pub received: Date,
    pub acquired: Date,
    pub status: Option<String>,
    pub created: DateTime,
    pub updated: DateTime,
}

impl DbApplication {
    /// The one-line debug description of an application:
    /// `DbApplication { id: .., name: .., customer_id: .., edition_id: .. }`.
    pub fn describe(&self) -> (r: String)
        ensures
            r@ == "DbApplication { id: "@ + crate::text::dec(self.id as nat) + ", name: "@ + self.name@
                + ", customer_id: "@ + crate::text::dec(self.customer_id as nat) + ", edition_id: "@
                + crate::text::dec(self.edition_id as nat) + " }"@,
    {
        let mut s = String::new();
        push_str(&mut s, "DbApplication { id: ");
        push_dec(&mut s, self.id);
        push_str(&mut s, ", name: ");
        push_str(&mut s, self.name.as_str());
        push_str(&mut s, ", customer_id: ");
        push_dec(&mut s, self.customer_id);
        push_str(&mut s, ", edition_id: ");
        push_dec(&mut s, self.edition_id);
        push_str(&mut s, " }");
        s
    }
}

/// A row of `licenses`.
pub struct DbLicense {
    pub id: u64,
    pub application_id: u64,
    pub edition_id: u64,
    pub paid: Option<Decimal>,
    pub version: Option<String>,
    pub payload: Option<String>,
    pub features: Option<String>,
    pub signature: Option<String>,
    pub issued: Date,
    pub expires: Option<Date>,
    pub valid_major: Option<u8>,
    pub revoked: bool,
    pub created: DateTime,
    pub updated: DateTime,
}

fn clone_opt_string(o: &Option<String>) -> (r: Option<String>)
    ensures
        r == *o,
{
    match o {
        Some(s) => Some(s.clone()),
        None => None,
    }
}

fn clone_opt_decimal(o: &Option<Decimal>) -> (r: Option<Decimal>)
    ensures
        r == *o,
{
    match o {
        Some(d) => Some(d.clone()),
        None => None,
    }
}

impl Clone for DbLicense {
    fn clone(&self) -> (r: Self)
        ensures
            r == *self,
    {
        DbLicense {
            id: self.id,
            application_id: self.application_id,
            edition_id: self.edition_id,
            paid: clone_opt_decimal(&self.paid),
            version: clone_opt_string(&self.version),
            payload: clone_opt_string(&self.payload),
            features: clone_opt_string(&self.features),
            signature: clone_opt_string(&self.signature),
            issued: self.issued,
            expires: self.expires,
            valid_major: self.valid_major,
            revoked: self.revoked,
            created: self.created,
            updated: self.updated,
        }
    }
}

/// A row of `products`.
pub struct DbProduct {
    pub id: u64,
    pub name: String,
    pub code: String,
    pub version: Option<String>,
    /// JSON text
    pub editions: Option<String>,
    /// JSON text
    pub payload_schema: String,
    /// JSON text
    pub features: String,
    pub keypair_path: String,
    pub active: bool,
    pub created: DateTime,
    pub updated: DateTime,
}

/// The `products` row for a product read from YAML: id 0 (the database
/// assigns it), the payload fields and editions as JSON arrays, no features
/// yet (`{}`), active, and creation and update times at the Unix epoch (the
/// database sets them).
pub open spec fn product_row(p: Product, r: DbProduct) -> bool {
    &&& r.id == 0
    &&& r.name@ == p.name@
    &&& r.code@ == p.code@
    &&& r.version == p.version
    &&& r.payload_schema@ == json_string_array(p.license.payload_fields@)
    &&& r.editions matches Some(e) && e@ == json_string_array(p.editions@)
    &&& r.features@ == seq!['{', '}']
    &&& r.keypair_path@ == p.signing.keypair@
    &&& r.active
    &&& is_epoch(r.created) && is_epoch(r.updated)
}

fn clone_version(o: &Option<String>) -> (r: Option<String>)
    ensures
        r == *o,
{
    match o {
        Some(s) => Some(s.clone()),
        None => None,
    }
}

impl DbProduct {
    /// The `products` row for a product read from YAML.
    pub fn from_product(p: &Product) -> (r: DbProduct)
        ensures
            product_row(*p, r),
    {
        let mut features = String::new();
        push_char(&mut features, '{');
        push_char(&mut features, '}');
        assert(features@ =~= seq!['{', '}']);
        DbProduct {
            id: 0,
            name: p.name.clone(),
            code: p.code.clone(),
            version: clone_version(&p.version),
            payload_schema: string_list_json(&p.license.payload_fields),
            editions: Some(string_list_json(&p.editions)),
            features,
            keypair_path: p.signing.keypair.clone(),
            active: true,
            created: epoch(),
            updated: epoch(),
        }
    }

    /// The insert parameters, in column order.
    pub fn as_params(&self) -> (r: (&str, &str, Option<&str>, &str, &str, Option<&str>, &str, &bool))
        ensures
            r.0@ == self.name@,
            r.1@ == self.code@,
            r.2 is Some <==> self.version is Some,
            r.2 matches Some(v) ==> v@ == self.version->Some_0@,
            r.3@ == self.payload_schema@,
            r.4@ == self.features@,
            r.5 is Some <==> self.editions is Some,
            r.5 matches Some(e) ==> e@ == self.editions->Some_0@,
            r.6@ == self.keypair_path@,
            *r.7 == self.active,
    {
        let version = match &self.version {
            Some(v) => Some(v.as_str()),
            None => None,
        };
        let editions = match &self.editions {
            Some(e) => Some(e.as_str()),
            None => None,
        };
        (
            self.name.as_str(),
            self.code.as_str(),
            version,
            self.payload_schema.as_str(),
            self.features.as_str(),
            editions,
            self.keypair_path.as_str(),
            &self.active,
        )
    }
}

impl<'a> From<&'a Product> for DbProduct {
    /// The `products` row for a product read from YAML.
    fn from(p: &'a Product) -> (r: DbProduct)
        ensures
            product_row(*p, r),
    {
        DbProduct::from_product(p)
    }
}

impl<'a> vstd::std_specs::convert::FromSpecImpl<&'a Product> for DbProduct {
    open spec fn obeys_from_spec() -> bool {
        false
    }

    open spec fn from_spec(p: &'a Product) -> DbProduct {
        arbitrary()
    }
}

/// A row of `editions`.
pub struct DbEdition {
    pub id: u64,
    pub name: String,
    pub product_id: u64,
    pub sku: String,
    pub edition_code: String,
    pub price: Option<Decimal>,
    /// JSON text
    pub metadata: String,
    pub valid: bool,
    pub created: DateTime,
    pub updated: DateTime,
}

/// A row of `customers`.
pub struct DbCustomer {
    pub id: u64,
    pub company: Option<String>,
    pub first: String,
    pub last: String,
    pub email: String,
    pub phone: String,
    pub address_id: u64,
    pub notes: Option<String>,
    pub created: DateTime,
    pub updated: DateTime,
}

/// A row of `address`.
pub struct DbAddress {
    pub id: u64,
    pub maildrop: Option<String>,
    pub street: Option<String>,
    pub suite: Option<String>,
    /// Five-digit ZIP code
    pub zip: u32,
    /// ZIP+4 extension
    pub zip4: Option<u32>,
    pub city: Option<String>,
    pub state: Option<String>,
    pub county: Option<String>,
    pub country: String,
    pub created: DateTime,
    pub updated: DateTime,
}

/// A row of `zipcodes`.
pub struct DbZipcode {
    pub zip: u32,
    pub city: String,
    pub state: String,
    pub county: Option<String>,
}

/// A row of the `v_address` view.
pub struct DbAddressView {
    pub id: u64,
    pub maildrop: String,
    pub street: String,
    pub suite: String,
    pub zip: String,
    pub city: String,
    pub state: String,
    pub county: String,
    pub country: String,
}

/// A row of the customer view.
pub struct DbCustomerView {
    pub id: u64,
    pub company: String,
    pub first: String,
    pub last: String,
    pub email: String,
    pub phone: String,
    pub notes: String,
    pub address_id: u64,
}

/// A row of the edition view (edition joined with its product).
pub struct DbEditionView {
    pub id: u64,
    pub product_name: String,
    pub product_id: u64,
    pub version: String,
    pub editions: String,
    pub payload_schema: String,
    pub features: String,
    pub keypair_path: String,
    pub active: bool,
    pub edition_name: String,
    pub sku: String,
    pub edition_code: String,
    pub metadata: String,
    pub price: Decimal,
    pub valid: bool,
}

/// A row of the application view.
pub struct DbApplicationView {
    pub id: u64,
    pub application_name: String,
    pub edition_id: u64,
    pub customer_id: u64,
    pub company: String,
    pub first: String,
    pub last: String,
    pub product_name: String,
    pub edition_name: String,
    pub sku: String,
    pub edition_valid: bool,
    pub application_price: Decimal,
    pub major: u8,
    pub validity_value: u16,
    pub validity_unit: String,
    pub raw_yaml: String,
    pub received: Date,
    pub acquired: Date,
    pub status: String,
}

/// A row of the license view.
pub struct DbLicenseView {
    pub id: u64,
    pub version: String,
    pub payload: String,
    pub features: String,
    pub signature: String,
    pub issued: Date,
    pub expires: Date,
    pub revoked: bool,
    pub application_name: String,
    pub application_price: Decimal,
    pub major: u8,
    pub validity_value: u8,
    pub validity_unit: String,
    pub company: String,
    pub first: String,
    pub last: String,
    pub product_name: String,
    pub edition_name: String,
    pub sku: String,
}

} // verus!
