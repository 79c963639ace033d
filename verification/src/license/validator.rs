//! The validator the rest of the pipeline calls.
use vstd::prelude::*;

use crate::license::crypto::{envelope_judged, envelope_read_of, validate_license, EnvelopeRead};
use crate::license::keys::PublicKey;
use crate::license::types::ValidationOutcome;
use crate::util::datetime::Date;

verus! {

/// Validates a wrapped license JSON string on the current local date.
pub fn validate(license_json: &str, public_key: &PublicKey) -> (r: ValidationOutcome)
    ensures
        exists|read: EnvelopeRead, today: Date|
            envelope_read_of(license_json@, read) && envelope_judged(read, public_key@, today, r@),
{
    validate_license(license_json, public_key)
}

} // verus!
