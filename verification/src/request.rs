use vstd::prelude::*;

verus! {

/// The body of a create-mail request, as decoded from the caller.
/// The identifier and the creation time are not here: the store
/// assigns both.
#[derive(Debug)]
pub struct MailNewProps {
    /// Caller-supplied correlation key.
    pub request_id: String,
    pub topic: String,
    /// The recipient address.
    pub destination: String,
    pub title: String,
    /// The message body, sent as HTML.
    pub content: String,
}

impl Clone for MailNewProps {
    fn clone(&self) -> (res: Self)
        ensures
            res == *self,
    {
        MailNewProps {
            request_id: self.request_id.clone(),
            topic: self.topic.clone(),
            destination: self.destination.clone(),
            title: self.title.clone(),
            content: self.content.clone(),
        }
    }
}

/// The sparse filter set of a view-mail request. A field that is
/// `None` imposes no constraint at all; a field that is present must
/// hold exactly. Absence is never conflated with a zero value.
#[derive(Debug)]
pub struct MailViewProps {
    pub mail_id: Option<i64>,
    pub request_id: Option<String>,
    pub min_creation_time: Option<i64>,
    pub max_creation_time: Option<i64>,
    pub topic: Option<String>,
    pub destination: Option<String>,
    /// Pagination: how many leading matches to skip. Defaults to 0.
    pub offset: Option<i64>,
    /// Pagination: how many matches to return. Defaults to 100.
    pub count: Option<i64>,
}

/// The closed set of severity codes an event can carry.
#[derive(Clone, Copy, Debug, PartialEq, Eq, Structural)]
pub enum LogSeverityKind {
    Error,
    Warning,
    Info,
    Debug,
}

/// The sparse filter set of a view-events request, with the same
/// null-means-unfiltered reading as `MailViewProps`.
#[derive(Debug)]
pub struct EventViewProps {
    pub event_id: Option<i64>,
    /// Exact creation time; distinct from the range bounds below.
    pub creation_time: Option<i64>,
    pub min_creation_time: Option<i64>,
    pub max_creation_time: Option<i64>,
    pub source: Option<String>,
    pub msg: Option<String>,
    pub severity_kind: Option<LogSeverityKind>,
    /// Exact duration. A row with no duration never matches it.
    pub duration: Option<i64>,
    pub min_duration: Option<i64>,
    pub max_duration: Option<i64>,
    /// When `Some(true)`, the scan is first reduced to the single row
    /// with the greatest identifier for each distinct `msg` key.
    pub recent_by_msg: Option<bool>,
    pub offset: Option<i64>,
    pub count: Option<i64>,
}

} // verus!
