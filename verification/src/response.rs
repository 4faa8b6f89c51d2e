use vstd::prelude::*;

verus! {

/// The closed set of error codes that API callers can receive.
/// Every internal failure is collapsed into exactly one of these
/// before it leaves the process.
#[derive(Clone, Copy, Debug, PartialEq, Eq, Structural)]
pub enum MailError {
    /// The request named a route that does not exist.
    NotFound,
    /// The request body was malformed or missing a required field.
    BadRequest,
    /// The route exists but not for the request's method.
    MethodNotAllowed,
    /// Any unclassified internal failure: storage, delivery, decoding.
    Unknown,
}

/// One mail record as it is returned to an API caller: the same
/// fields the store persisted, fully populated.
#[derive(Debug)]
pub struct Mail {
    pub mail_id: i64,
    pub request_id: String,
    pub creation_time: i64,
    pub topic: String,
    pub destination: String,
    pub title: String,
    pub content: String,
}

impl Clone for Mail {
    fn clone(&self) -> (res: Self)
        ensures
            res == *self,
    {
        Mail {
            mail_id: self.mail_id,
            request_id: self.request_id.clone(),
            creation_time: self.creation_time,
            topic: self.topic.clone(),
            destination: self.destination.clone(),
            title: self.title.clone(),
            content: self.content.clone(),
        }
    }
}

/// The HTTP status that belongs to each error code.
pub open spec fn spec_mail_error_status(e: MailError) -> u16 {
    match e {
        MailError::NotFound => 404u16,
        MailError::BadRequest => 400u16,
        MailError::MethodNotAllowed => 405u16,
        MailError::Unknown => 500u16,
    }
}

/// Each error code maps to exactly one HTTP status.
pub fn mail_error_status(e: &MailError) -> (s: u16)
    ensures
        s == spec_mail_error_status(*e),
{
    match e {
        MailError::NotFound => 404,
        MailError::BadRequest => 400,
        MailError::MethodNotAllowed => 405,
        MailError::Unknown => 500,
    }
}

} // verus!
