//! Checking application requests.
use vstd::prelude::*;

use crate::product::types::{AppError, ApplicationRequest};
use crate::text::push_str;

verus! {

/// The message of the first required field an application lacks: the
/// product, the contact's first or last name, the edition, the application
/// name; `None` when it has them all.
pub open spec fn missing_field(req: ApplicationRequest) -> Option<Seq<char>> {
    if req.request.product@.len() == 0 {
        Some("Missing request.product"@)
    } else if req.contact.name.first@.len() == 0 || req.contact.name.last@.len() == 0 {
        Some("Missing first/last name"@)
    } else if req.request.edition@.len() == 0 {
        Some("Missing edition"@)
    } else if req.request.name@.len() == 0 {
        Some("Missing app name"@)
    } else {
        None
    }
}

/// An application request is accepted exactly when its product, its
/// contact's first and last names, its edition and its name are all
/// non-empty; a request that lacks any of them (a contact without a last
/// name among them) is refused.
pub proof fn law_accepted_requests_name_every_field(req: ApplicationRequest)
    ensures
        missing_field(req) is None <==> {
            &&& req.request.product@.len() > 0
            &&& req.contact.name.first@.len() > 0
            &&& req.contact.name.last@.len() > 0
            &&& req.request.edition@.len() > 0
            &&& req.request.name@.len() > 0
        },
        req.request.product@.len() > 0 && (req.contact.name.first@.len() == 0
            || req.contact.name.last@.len() == 0) ==> missing_field(req) == Some("Missing first/last name"@),
{
}

fn invalid(msg: &str) -> (r: AppError)
    ensures
        r matches AppError::Invalid(m) && m@ == msg@,
{
    let mut m = String::new();
    push_str(&mut m, msg);
    AppError::Invalid(m)
}

/// Checks a parsed application request for its required fields and attaches
/// the YAML text it was read from.
pub fn load_application(req: ApplicationRequest, contents: String) -> (r: Result<ApplicationRequest, AppError>)
    ensures
        match missing_field(req) {
            Some(m) => r matches Err(AppError::Invalid(e)) && e@ == m,
            None => r matches Ok(out) && out.raw_yaml@ == contents@ && out.request == req.request
                && out.contact == req.contact && out.vendor == req.vendor,
        },
{
    let mut req = req;
    if req.request.product.as_str().is_empty() {
        return Err(invalid("Missing request.product"));
    }
    if req.contact.name.first.as_str().is_empty() || req.contact.name.last.as_str().is_empty() {
        return Err(invalid("Missing first/last name"));
    }
    if req.request.edition.as_str().is_empty() {
        return Err(invalid("Missing edition"));
    }
    if req.request.name.as_str().is_empty() {
        return Err(invalid("Missing app name"));
    }
    req.raw_yaml = contents;
    Ok(req)
}

} // verus!
