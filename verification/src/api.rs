use vstd::prelude::*;

use crate::response::{spec_mail_error_status, MailError};

verus! {

/// The classified cause of a failed request, as the HTTP layer hands
/// it over: either one of the transport-level causes it recognizes,
/// or an error a handler raised, or something it cannot classify.
#[derive(Clone, Copy, Debug, PartialEq, Eq, Structural)]
pub enum RejectionKind {
    /// No route matched the request path.
    RouteNotFound,
    /// The request body could not be decoded: malformed, or a
    /// required field was missing.
    BodyDeserialize,
    /// The route exists, but not for this method.
    MethodNotAllowed,
    /// A handler failed with one of the closed error codes.
    Handler(MailError),
    /// An unrecognized cause. It is logged by the caller before it
    /// reaches this mapping; no detail of it is leaked onward.
    UnknownKind,
}

/// The single place where an internal failure cause turns into the
/// status and the stable error code a caller receives.
pub open spec fn spec_rejection_response(k: RejectionKind) -> (u16, MailError) {
    match k {
        RejectionKind::RouteNotFound => (404u16, MailError::NotFound),
        RejectionKind::BodyDeserialize => (400u16, MailError::BadRequest),
        RejectionKind::MethodNotAllowed => (405u16, MailError::MethodNotAllowed),
        RejectionKind::Handler(e) => (spec_mail_error_status(e), e),
        RejectionKind::UnknownKind => (500u16, MailError::Unknown),
    }
}

/// Maps one failure cause to the status and error code of the
/// response envelope. An undecodable body always yields 400 with
/// `BadRequest` — never 500 with `Unknown`; `Unknown` is reserved for
/// causes that are unclassified or that a handler already collapsed.
pub fn handle_rejection(kind: &RejectionKind) -> (r: (u16, MailError))
    ensures
        r == spec_rejection_response(*kind),
        kind is BodyDeserialize ==> r.0 == 400 && r.1 == MailError::BadRequest,
        r.1 == MailError::Unknown ==> kind == RejectionKind::UnknownKind || kind
            == RejectionKind::Handler(MailError::Unknown),
{
    match kind {
        RejectionKind::RouteNotFound => (404, MailError::NotFound),
        RejectionKind::BodyDeserialize => (400, MailError::BadRequest),
        RejectionKind::MethodNotAllowed => (405, MailError::MethodNotAllowed),
        RejectionKind::Handler(e) => {
            let status = crate::response::mail_error_status(e);
            (status, *e)
        },
        RejectionKind::UnknownKind => (500, MailError::Unknown),
    }
}

/// The name/version map the public info route serves.
pub fn api_info() -> (r: Vec<(String, String)>)
    ensures
        r@.len() == 2,
        r@[0].0@ == "version"@ && r@[0].1@ == "0.1"@,
        r@[1].0@ == "name"@ && r@[1].1@ == "mail-service"@,
{
    broadcast use vstd::string::to_string_from_display_ensures_for_str;

    let mut v: Vec<(String, String)> = Vec::new();
    v.push(("version".to_string(), "0.1".to_string()));
    v.push(("name".to_string(), "mail-service".to_string()));
    v
}

/// The HTTP status always communicates the same category as the error
/// code in the envelope: the mapping never pairs a code with the
/// status of another one.
pub proof fn lemma_status_matches_code(k: RejectionKind)
    ensures
        spec_rejection_response(k).0 == spec_mail_error_status(spec_rejection_response(k).1),
{
}

} // verus!
