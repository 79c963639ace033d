//! Validity periods, major-version parsing, and the decision to reuse an
//! existing license or issue a new one.
use vstd::prelude::*;

use crate::db::types::DbApplication;
use crate::license::errors::EvaluationError;
use crate::license::types::{LicenseBundle, LicenseDecision, ValidityInfo, ValidityUnit};
use crate::text::{chars_of, str_eq};
use crate::util::datetime::{day_in_range, Date};

verus! {

/// Whether a character is an ASCII decimal digit.
pub open spec fn is_digit(c: char) -> bool {
    '0' <= c <= '9'
}

/// The value of a sequence of decimal digits.
pub open spec fn digits_value(s: Seq<char>) -> nat
    decreases s.len(),
{
    if s.len() == 0 {
        0
    } else {
        digits_value(s.drop_last()) * 10 + ((s.last() as int - 48) as nat)
    }
}

/// A text without its leading `+`, if it has one.
pub open spec fn strip_plus(s: Seq<char>) -> Seq<char> {
    if s.len() > 0 && s[0] == '+' {
        s.drop_first()
    } else {
        s
    }
}

/// Whether every character is a decimal digit.
pub open spec fn all_digits(d: Seq<char>) -> bool {
    forall|i: int| 0 <= i < d.len() ==> is_digit(#[trigger] d[i])
}

/// What `str::parse::<u8>` gives: an optional `+`, then one or more decimal
/// digits whose value is at most 255.
pub open spec fn parse_u8_spec(s: Seq<char>) -> Option<u8> {
    let d = strip_plus(s);
    if d.len() == 0 || !all_digits(d) || digits_value(d) > 255 {
        None
    } else {
        Some(digits_value(d) as u8)
    }
}

/// The text before the first `.`, the whole text if it has none
/// (`split('.').next()`).
pub open spec fn first_segment(s: Seq<char>) -> Seq<char>
    decreases s.len(),
{
    if s.len() == 0 {
        s
    } else if s[0] == '.' {
        Seq::empty()
    } else {
        seq![s[0]] + first_segment(s.drop_first())
    }
}

/// The major version of a version text: its first dot-separated part read as
/// a `u8`.
pub open spec fn major_of(version: Seq<char>) -> Option<u8> {
    parse_u8_spec(first_segment(version))
}

proof fn lemma_digits_value_mono(s: Seq<char>, j: int, k: int)
    requires
        0 <= j <= k <= s.len(),
        forall|i: int| 0 <= i < s.len() ==> is_digit(#[trigger] s[i]),
    ensures
        digits_value(s.subrange(0, j)) <= digits_value(s.subrange(0, k)),
    decreases k - j,
{
    if j < k {
        lemma_digits_value_mono(s, j, k - 1);
        assert(s.subrange(0, k).drop_last() =~= s.subrange(0, k - 1));
    }
}

/// `str::parse::<u8>` on a sequence of characters.
fn parse_u8(s: &[char]) -> (r: Option<u8>)
    ensures
        r == parse_u8_spec(s@),
{
    let n = s.len();
    let start: usize = if n > 0 && s[0] == '+' { 1 } else { 0 };
    let ghost d = strip_plus(s@);
    assert(d =~= s@.subrange(start as int, n as int));
    if start >= n {
        return None;
    }
    let mut acc: u32 = 0;
    let mut i: usize = start;
    while i < n
        invariant
            start <= i <= n,
            n == s@.len(),
            d =~= s@.subrange(start as int, n as int),
            d == strip_plus(s@),
            d.len() > 0,
            forall|j: int| 0 <= j < i - start ==> is_digit(#[trigger] d[j]),
            acc == digits_value(d.subrange(0, i - start)),
            acc <= 255,
        decreases n - i,
    {
        let c = s[i];
        if !('0' <= c && c <= '9') {
            proof {
                let k = i - start;
                assert(!is_digit(d[k]));
                assert(!all_digits(d));
            }
            return None;
        }
        let v: u32 = (c as u32) - 48;
        assert(d.subrange(0, i - start + 1).drop_last() =~= d.subrange(0, i - start));
        acc = acc * 10 + v;
        if acc > 255 {
            proof {
                if all_digits(d) {
                    lemma_digits_value_mono(d, i - start + 1, d.len() as int);
                    assert(d.subrange(0, d.len() as int) =~= d);
                    assert(digits_value(d) > 255);
                }
            }
            return None;
        }
        i = i + 1;
    }
    assert(d.subrange(0, n - start) =~= d);
    Some(acc as u8)
}

/// The part of a text before its first `.`.
fn first_segment_of(s: &[char]) -> (r: Vec<char>)
    ensures
        r@ == first_segment(s@),
{
    let mut r: Vec<char> = Vec::new();
    let mut i: usize = 0;
    assert(s@.subrange(0, s@.len() as int) =~= s@);
    while i < s.len() && s[i] != '.'
        invariant
            i <= s@.len(),
            forall|j: int| 0 <= j < i ==> s@[j] != '.',
            first_segment(s@) == r@ + first_segment(s@.subrange(i as int, s@.len() as int)),
        decreases s@.len() - i,
    {
        let ghost rest = s@.subrange(i as int, s@.len() as int);
        assert(rest.drop_first() =~= s@.subrange(i + 1, s@.len() as int));
        r.push(s[i]);
        i = i + 1;
        assert(first_segment(s@) =~= r@ + first_segment(s@.subrange(i as int, s@.len() as int)));
    }
    assert(first_segment(s@.subrange(i as int, s@.len() as int)) =~= Seq::<char>::empty());
    r
}

/// The major version of a version text: `3` for `"3.1.4"`, `None` where the
/// part before the first dot is not a `u8`.
pub fn parse_major(version: &str) -> (r: Option<u8>)
    ensures
        r == major_of(version@),
{
    let cs = chars_of(version);
    let seg = first_segment_of(cs.as_slice());
    parse_u8(seg.as_slice())
}

/// The number of days a validity value spans in a unit: 0 for no expiry,
/// 7 per week, 30 per month, 365 per year.
pub open spec fn unit_days(unit: ValidityUnit) -> int {
    match unit {
        ValidityUnit::NoExpiration => 0,
        ValidityUnit::Days => 1,
        ValidityUnit::Weeks => 7,
        ValidityUnit::Months => 30,
        ValidityUnit::Years => 365,
    }
}

/// The unit an application's `validity_unit` text names.
pub open spec fn unit_named(s: Seq<char>) -> Option<ValidityUnit> {
    if s == "days"@ {
        Some(ValidityUnit::Days)
    } else if s == "weeks"@ {
        Some(ValidityUnit::Weeks)
    } else if s == "months"@ {
        Some(ValidityUnit::Months)
    } else if s == "years"@ {
        Some(ValidityUnit::Years)
    } else {
        None
    }
}

/// The unit of an optional unit text.
pub open spec fn unit_of(s: Option<String>) -> Option<ValidityUnit> {
    match s {
        Some(t) => unit_named(t@),
        None => None,
    }
}

impl ValidityUnit {
    /// The unit an application names: `days`, `weeks`, `months` or `years`.
    pub fn from_str(s: &str) -> (r: Option<ValidityUnit>)
        ensures
            r == unit_named(s@),
    {
        if str_eq(s, "days") {
            Some(ValidityUnit::Days)
        } else if str_eq(s, "weeks") {
            Some(ValidityUnit::Weeks)
        } else if str_eq(s, "months") {
            Some(ValidityUnit::Months)
        } else if str_eq(s, "years") {
            Some(ValidityUnit::Years)
        } else {
            None
        }
    }
}

fn unit_of_exec(s: &Option<String>) -> (r: Option<ValidityUnit>)
    ensures
        r == unit_of(*s),
{
    match s {
        Some(t) => ValidityUnit::from_str(t.as_str()),
        None => None,
    }
}

/// The day number at which an application's validity period ends, if its
/// unit is a known one; `None` for an unknown or missing unit.
pub open spec fn application_expiry_day(app: DbApplication) -> Option<int> {
    match unit_of(app.validity_unit) {
        Some(u) => Some(app.received.day() + app.validity_value * unit_days(u)),
        None => None,
    }
}

/// The validity an application grants: issued when received; with a value
/// of 0, no expiry; otherwise expiring `value` days, weeks, 30-day months or
/// 365-day years after receipt, and not at all for an unknown unit.
pub open spec fn validity_of(app: DbApplication, v: ValidityInfo) -> bool {
    &&& v.issued == app.received
    &&& v.valid_major == app.valid_major
    &&& v.validity_value == Some(app.validity_value)
    &&& v.validity_unit == unit_of(app.validity_unit)
    &&& if app.validity_value == 0 {
        v.expires is None
    } else {
        match application_expiry_day(app) {
            Some(day) => v.expires matches Some(e) && e.day() == day,
            None => v.expires is None,
        }
    }
}

/// Computes the validity of a license for an application.
pub fn determine_validity(app: &DbApplication) -> (r: ValidityInfo)
    requires
        app.validity_value != 0 ==> match application_expiry_day(*app) {
            Some(day) => day_in_range(day),
            None => true,
        },
    ensures
        validity_of(*app, r),
{
    let unit = unit_of_exec(&app.validity_unit);
    if app.validity_value == 0 {
        return ValidityInfo {
            issued: app.received,
            expires: None,
            valid_major: app.valid_major,
            validity_value: Some(app.validity_value),
            validity_unit: unit,
        };
    }
    let issued = app.received;
    let v = app.validity_value as i64;
    let expires = match unit {
        Some(ValidityUnit::Days) => issued.checked_add_days(v),
        Some(ValidityUnit::Weeks) => issued.checked_add_days(7 * v),
        Some(ValidityUnit::Months) => issued.checked_add_days(30 * v),
        Some(ValidityUnit::Years) => issued.checked_add_days(365 * v),
        _ => None,
    };
    ValidityInfo {
        issued,
        expires,
        valid_major: app.valid_major,
        validity_value: Some(app.validity_value),
        validity_unit: unit,
    }
}

/// The major version a product's version text gives, if any.
pub open spec fn product_major(version: Option<String>) -> Option<u8> {
    match version {
        Some(v) => major_of(v@),
        None => None,
    }
}

/// The major version a bundle's validity grants, if any.
pub open spec fn validity_major(validity: Option<ValidityInfo>) -> Option<u8> {
    match validity {
        Some(v) => v.valid_major,
        None => None,
    }
}

/// Whether an existing license must be replaced by a new one: there is none,
/// it is revoked, it is for another edition, the product and edition do not
/// belong together, or it expired before `today`.
pub open spec fn needs_new_license(b: LicenseBundle, today: Date) -> bool {
    match b.license {
        None => true,
        Some(l) => {
            ||| l.revoked
            ||| l.edition_id != b.edition.id
            ||| b.product.id != b.edition.product_id
            ||| (l.expires matches Some(e) && e.day() < today.day())
        },
    }
}

/// The decision on a bundle on the given day.
pub open spec fn evaluation(b: LicenseBundle, today: Date) -> Result<LicenseDecision, EvaluationError> {
    if needs_new_license(b, today) {
        Ok(LicenseDecision::IssueNew)
    } else if validity_major(b.validity) != product_major(b.product.version) {
        Err(
            EvaluationError::MajorVersionMismatch {
                expected: product_major(b.product.version),
                found: validity_major(b.validity),
            },
        )
    } else {
        Ok(LicenseDecision::ReuseExisting(b.license.unwrap()))
    }
}

/// Decides, on the day `today`, whether a bundle's existing license is
/// reused or a new one is issued.
pub fn evaluate_license_on(bundle: &LicenseBundle, today: Date) -> (r: Result<LicenseDecision, EvaluationError>)
    ensures
        r == evaluation(*bundle, today),
{
    let license = match &bundle.license {
        None => return Ok(LicenseDecision::IssueNew),
        Some(l) => l,
    };
    if license.revoked {
        return Ok(LicenseDecision::IssueNew);
    }
    if license.edition_id != bundle.edition.id {
        return Ok(LicenseDecision::IssueNew);
    }
    if bundle.product.id != bundle.edition.product_id {
        return Ok(LicenseDecision::IssueNew);
    }
    if let Some(exp) = license.expires {
        if exp.days() < today.days() {
            return Ok(LicenseDecision::IssueNew);
        }
    }
    let product_major = match &bundle.product.version {
        Some(v) => parse_major(v.as_str()),
        None => None,
    };
    let valid_major = match &bundle.validity {
        Some(v) => v.valid_major,
        None => None,
    };
    if valid_major != product_major {
        return Err(EvaluationError::MajorVersionMismatch { expected: product_major, found: valid_major });
    }
    Ok(LicenseDecision::ReuseExisting(license.clone()))
}

/// Decides whether a bundle's existing license is reused or a new one is
/// issued, on the current local date.
pub fn evaluate_license(bundle: &LicenseBundle) -> (r: Result<LicenseDecision, EvaluationError>)
    ensures
        exists|today: Date| r == evaluation(*bundle, today),
{
    let today = Date::today();
    evaluate_license_on(bundle, today)
}

} // verus!
