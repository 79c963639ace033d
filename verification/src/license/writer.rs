//! The license file format.
use vstd::prelude::*;

use crate::license::types::SignedLicense;
use crate::text::push_str;

verus! {

/// The text of a license file: the canonical payload as it was signed and
/// the Base64 signature, as `{"payload":<payload>,"signature":"<signature>"}`
/// with no whitespace and no re-serialization of the payload.
pub open spec fn license_file_text(signed: SignedLicense) -> Seq<char> {
    "{\"payload\":"@ + signed.payload_json@ + ",\"signature\":\""@ + signed.signature@ + "\"}"@
}

/// The text to write to a license file.
pub fn license_file_json(signed: &SignedLicense) -> (r: String)
    ensures
        r@ == license_file_text(*signed),
{
    let mut s = String::new();
    push_str(&mut s, "{\"payload\":");
    push_str(&mut s, signed.payload_json.as_str());
    push_str(&mut s, ",\"signature\":\"");
    push_str(&mut s, signed.signature.as_str());
    push_str(&mut s, "\"}");
    s
}

} // verus!
