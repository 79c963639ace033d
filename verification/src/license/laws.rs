//! Properties the license rules keep across functions.
use vstd::prelude::*;

use crate::db::types::DbApplication;
use crate::license::canonical::{json_opt_unit, payload_json, unit_name};
use crate::license::decode::unit_of_name;
use crate::license::crypto::{payload_signature, payload_verdict, signed_parts, EnvelopeRead};
use crate::license::keys::{base64_encode, rsa_public_pem_of};
use crate::license::errors::EvaluationError;
use crate::license::evaluator::{
    all_digits, digits_value, evaluation, first_segment, is_digit, major_of, product_major, strip_plus,
    validity_major, validity_of,
};
use crate::license::types::{LicenseBundle, LicenseDecision, LicensePayload, ValidityInfo, ValidityUnit, Verdict};
use crate::text::{dec, digit_char, json_string};
use crate::util::datetime::{expiration_day, Date};

verus! {

/// COM and DEV licenses are valid whatever their dates and versions, once
/// their signature is valid.
pub proof fn law_com_and_dev_are_always_valid(p: LicensePayload, today: Date)
    requires
        p.edition.code@ == "COM"@ || p.edition.code@ == "DEV"@,
    ensures
        payload_verdict(p, today) == Verdict::Valid,
{
}

/// What signing writes passes the signature check: an envelope whose
/// payload text is a payload's canonical JSON and whose signature is what
/// signing that payload with a private key gives carries that key's
/// signature, so validating it under the key's public half judges the payload
/// on its content alone (see `assess_envelope`).
pub proof fn law_signed_payload_carries_its_signature(
    read: EnvelopeRead,
    private_pem: Seq<char>,
    public_key: Seq<char>,
    p: LicensePayload,
)
    requires
        read is Parts,
        read->payload is Some,
        read->payload_json@ == payload_json(p),
        payload_signature(private_pem, p) is Some,
        read->signature@ == base64_encode(payload_signature(private_pem, p).unwrap()),
        rsa_public_pem_of(private_pem) == Some(public_key),
    ensures
        signed_parts(read, private_pem, public_key),
{
}

/// Signing is deterministic: the signature a key makes of a payload depends
/// on the payload's canonical JSON alone, so payloads with the same
/// canonical text get the same signature.
pub proof fn law_signing_is_deterministic(key: Seq<char>, p: LicensePayload, q: LicensePayload)
    requires
        payload_json(p) == payload_json(q),
    ensures
        payload_signature(key, p) == payload_signature(key, q),
{
}

/// An existing license is reused only while it is live: not revoked, for
/// the bundle's edition, of a product the edition belongs to, not expired
/// before today, and granting the product's major version.
pub proof fn law_reuse_only_of_live_license(b: LicenseBundle, today: Date)
    requires
        evaluation(b, today) matches Ok(LicenseDecision::ReuseExisting(_)),
    ensures
        b.license matches Some(l) && evaluation(b, today) == Ok::<LicenseDecision, EvaluationError>(
            LicenseDecision::ReuseExisting(l),
        ) && {
            &&& !l.revoked
            &&& l.edition_id == b.edition.id
            &&& b.product.id == b.edition.product_id
            &&& l.expires matches Some(e) ==> e.day() >= today.day()
            &&& validity_major(b.validity) == product_major(b.product.version)
        },
{
}

/// A bundle whose license cannot be reused (there is none, it is revoked,
/// it is for another edition, the product and edition do not belong
/// together, or it expired before today) is decided a new license, whatever
/// the product's version and the major version its validity grants.
pub proof fn law_unusable_license_is_issued_anew(b: LicenseBundle, today: Date)
    requires
        match b.license {
            None => true,
            Some(l) => {
                ||| l.revoked
                ||| l.edition_id != b.edition.id
                ||| b.product.id != b.edition.product_id
                ||| (l.expires matches Some(e) && e.day() < today.day())
            },
        },
    ensures
        evaluation(b, today) == Ok::<LicenseDecision, EvaluationError>(LicenseDecision::IssueNew),
{
}

/// A bundle is refused for its versions exactly when its license could
/// otherwise be reused and the major version its validity grants differs
/// from the product's; the error names both.
pub proof fn law_version_refusal_only_for_usable_license(b: LicenseBundle, today: Date)
    ensures
        evaluation(b, today) is Err <==> {
            &&& b.license matches Some(l) && {
                &&& !l.revoked
                &&& l.edition_id == b.edition.id
                &&& b.product.id == b.edition.product_id
                &&& !(l.expires matches Some(e) && e.day() < today.day())
            }
            &&& validity_major(b.validity) != product_major(b.product.version)
        },
        evaluation(b, today) is Err ==> evaluation(b, today) == Err::<LicenseDecision, EvaluationError>(
            EvaluationError::MajorVersionMismatch {
                expected: product_major(b.product.version),
                found: validity_major(b.validity),
            },
        ),
{
}

/// A license that can be reused (not revoked, for the bundle's edition, of
/// a product the edition belongs to, not expired before today) and whose
/// validity grants the product's major version is reused as it is.
pub proof fn law_usable_license_with_matching_major_is_reused(b: LicenseBundle, today: Date)
    requires
        b.license matches Some(l) && {
            &&& !l.revoked
            &&& l.edition_id == b.edition.id
            &&& b.product.id == b.edition.product_id
            &&& !(l.expires matches Some(e) && e.day() < today.day())
        },
        validity_major(b.validity) == product_major(b.product.version),
    ensures
        evaluation(b, today) == Ok::<LicenseDecision, EvaluationError>(
            LicenseDecision::ReuseExisting(b.license.unwrap()),
        ),
{
}

/// A DEMO license that has an expiration date not before today, and whose
/// product and license major versions are both known, is valid exactly when
/// the two majors are equal; otherwise it is refused naming both.
pub proof fn law_demo_major_must_equal_product_major(p: LicensePayload, today: Date)
    requires
        p.edition.code@ == "DEMO"@,
        p.validity.expires matches Some(e) && e.day() >= today.day(),
        major_of(p.product.version@) is Some,
        p.validity.valid_major is Some,
    ensures
        payload_verdict(p, today) == (if p.validity.valid_major.unwrap() == major_of(p.product.version@).unwrap() {
            Verdict::Valid
        } else {
            Verdict::DemoMajorMismatch {
                product_major: major_of(p.product.version@).unwrap(),
                license_major: p.validity.valid_major.unwrap(),
            }
        }),
{
    reveal_strlit("DEMO");
    reveal_strlit("COM");
    reveal_strlit("DEV");
    assert("DEMO"@.len() == 4);
    assert("COM"@.len() == 3);
    assert("DEV"@.len() == 3);
}

/// A license that is neither COM, DEV nor DEMO, has not expired before
/// today, and whose majors are both known, is refused exactly when the
/// product's major is above the license's; a license for a later major is
/// accepted.
pub proof fn law_plain_license_covers_lower_majors(p: LicensePayload, today: Date)
    requires
        !(p.edition.code@ == "COM"@ || p.edition.code@ == "DEV"@ || p.edition.code@ == "DEMO"@),
        !(p.validity.expires matches Some(e) && e.day() < today.day()),
        major_of(p.product.version@) is Some,
        p.validity.valid_major is Some,
    ensures
        payload_verdict(p, today) == (if major_of(p.product.version@).unwrap() > p.validity.valid_major.unwrap() {
            Verdict::MajorVersionMismatch {
                product_major: major_of(p.product.version@).unwrap(),
                license_major: p.validity.valid_major.unwrap(),
            }
        } else {
            Verdict::Valid
        }),
{
}

/// A license that has not expired before today, has an expiration date if
/// it is a DEMO license, and grants the product's major version (or one of
/// the two majors is unknown) is valid.
pub proof fn law_live_license_with_matching_major_is_valid(p: LicensePayload, today: Date)
    requires
        !(p.validity.expires matches Some(e) && e.day() < today.day()),
        p.edition.code@ == "DEMO"@ ==> p.validity.expires is Some,
        major_of(p.product.version@) is Some && p.validity.valid_major is Some ==> major_of(
            p.product.version@,
        ).unwrap() == p.validity.valid_major.unwrap(),
    ensures
        payload_verdict(p, today) == Verdict::Valid,
{
}

/// The canonical text of a validity unit is a JSON string holding the
/// name serde gives the unit's variant, and reading that name back gives the
/// same unit: no unit is written, and signed, as another.
pub proof fn law_unit_text_reads_back(u: ValidityUnit)
    ensures
        json_opt_unit(Some(u)) == json_string(match u {
            ValidityUnit::NoExpiration => "NoExpiration"@,
            ValidityUnit::Days => "Days"@,
            ValidityUnit::Weeks => "Weeks"@,
            ValidityUnit::Months => "Months"@,
            ValidityUnit::Years => "Years"@,
        }),
        exists|t: Seq<char>| json_opt_unit(Some(u)) == json_string(t) && #[trigger] unit_of_name(t) == Some(u),
{
    reveal_strlit("NoExpiration");
    reveal_strlit("Days");
    reveal_strlit("Weeks");
    reveal_strlit("Months");
    reveal_strlit("Years");
    let t = unit_name(u);
    assert("NoExpiration"@[0] == 'N' && "Days"@[0] == 'D' && "Weeks"@[0] == 'W');
    assert("Months"@[0] == 'M' && "Years"@[0] == 'Y');
    assert(unit_of_name(t) == Some(u));
}

/// A DEMO license without an expiration date is never valid.
pub proof fn law_demo_needs_an_expiration(p: LicensePayload, today: Date)
    requires
        p.edition.code@ == "DEMO"@,
        p.validity.expires is None,
    ensures
        payload_verdict(p, today) == Verdict::DemoMissingExpiration,
{
    reveal_strlit("DEMO");
    reveal_strlit("COM");
    reveal_strlit("DEV");
    assert("DEMO"@.len() == 4);
    assert("COM"@.len() == 3);
    assert("DEV"@.len() == 3);
}

/// A license that is not COM or DEV and expired before today is reported
/// expired on its expiration date, whatever its versions.
pub proof fn law_expired_before_today(p: LicensePayload, today: Date)
    requires
        !(p.edition.code@ == "COM"@ || p.edition.code@ == "DEV"@),
        p.validity.expires matches Some(e) && e.day() < today.day(),
    ensures
        payload_verdict(p, today) == (if p.edition.code@ == "DEMO"@ {
            Verdict::DemoExpired(p.validity.expires.unwrap())
        } else {
            Verdict::Expired(p.validity.expires.unwrap())
        }),
{
}

/// A validity never expires before it was issued.
pub proof fn law_validity_expires_after_issue(app: DbApplication, v: ValidityInfo)
    requires
        validity_of(app, v),
    ensures
        v.expires matches Some(e) ==> e.day() >= v.issued.day(),
{
}

/// The expiration computed from a validity is the one its application
/// granted: the expiry date where there is one; none for an application
/// without expiry or with an unknown unit; for a validity value of 0 with a
/// unit, the issue date itself.
pub proof fn law_expiration_of_granted_validity(app: DbApplication, v: ValidityInfo)
    requires
        validity_of(app, v),
    ensures
        expiration_day(Some(v)) == match v.expires {
            Some(e) => Some(e.day()),
            None => if app.validity_value == 0 && v.validity_unit is Some {
                Some(v.issued.day())
            } else {
                None::<int>
            },
        },
{
}

proof fn lemma_dec_digits(n: nat)
    ensures
        all_digits(dec(n)),
        digits_value(dec(n)) == n,
        dec(n).len() > 0,
        forall|i: int| 0 <= i < dec(n).len() ==> dec(n)[i] != '.' && dec(n)[i] != '+',
    decreases n,
{
    let last = (n % 10) as int;
    assert(digit_char(last) as int == 48 + last);
    if n >= 10 {
        lemma_dec_digits(n / 10);
        let d = dec(n);
        assert(d.drop_last() =~= dec(n / 10));
        assert forall|i: int| 0 <= i < d.len() implies is_digit(#[trigger] d[i]) by {
            if i < d.len() - 1 {
                assert(d[i] == dec(n / 10)[i]);
            }
        }
        assert(d.last() == digit_char(last));
        assert((n / 10) * 10 + n % 10 == n);
        assert(digits_value(d) == digits_value(dec(n / 10)) * 10 + last);
    } else {
        let d = dec(n);
        assert(d.drop_last() =~= Seq::<char>::empty());
        assert(digits_value(Seq::<char>::empty()) == 0);
        assert(d.last() == digit_char(last));
        assert(digits_value(d) == digits_value(d.drop_last()) * 10 + ((d.last() as int - 48) as nat));
    }
}

proof fn lemma_first_segment_prefix(a: Seq<char>, rest: Seq<char>)
    requires
        forall|i: int| 0 <= i < a.len() ==> a[i] != '.',
    ensures
        first_segment(a + seq!['.'] + rest) == a,
    decreases a.len(),
{
    if a.len() == 0 {
        assert((a + seq!['.'] + rest)[0] == '.');
    } else {
        let s = a + seq!['.'] + rest;
        assert(s.drop_first() =~= a.drop_first() + seq!['.'] + rest);
        lemma_first_segment_prefix(a.drop_first(), rest);
        assert(seq![a[0]] + a.drop_first() =~= a);
    }
}

/// The major version of `<n>.<anything>` is `n`, for every `n` a `u8`
/// holds: reading the major version gives back the number written.
pub proof fn law_major_of_written_version(n: u8, rest: Seq<char>)
    ensures
        major_of(dec(n as nat) + seq!['.'] + rest) == Some(n),
{
    lemma_dec_digits(n as nat);
    lemma_first_segment_prefix(dec(n as nat), rest);
    assert(strip_plus(dec(n as nat)) == dec(n as nat));
}

} // verus!
