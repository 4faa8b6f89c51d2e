use vstd::prelude::*;

verus! {

/// The ways a store operation can fail. Records are immutable and the
/// stores are append-only, so the only failures are identifier
/// exhaustion on insert and corruption discovered while decoding a
/// stored row.
#[derive(Clone, Copy, Debug, PartialEq, Eq, Structural)]
pub enum StorageError {
    /// The next identifier would not fit the identifier column.
    IdExhausted,
    /// A stored enum column holds a value outside the known range.
    EnumOutOfRange { code: u8 },
    /// A set of stored rows does not carry the contiguous identifiers
    /// this store guarantees.
    NonContiguousIds,
}

/// One immutable mail record, exactly as it is persisted.
#[derive(Debug)]
pub struct Mail {
    /// Unique, strictly increasing, assigned by the store at insert.
    pub mail_id: i64,
    /// Caller-supplied correlation key; not unique.
    pub request_id: String,
    /// Milliseconds since the epoch, assigned by the server at insert.
    pub creation_time: i64,
    pub topic: String,
    /// The recipient address.
    pub destination: String,
    pub title: String,
    /// The message body.
    pub content: String,
}

impl Clone for Mail {
    fn clone(&self) -> (res: Self)
        ensures
            res == *self,
    {
        Mail {
            mail_id: self.mail_id,
            request_id: self.request_id.clone(),
            creation_time: self.creation_time,
            topic: self.topic.clone(),
            destination: self.destination.clone(),
            title: self.title.clone(),
            content: self.content.clone(),
        }
    }
}

impl Mail {
    /// Reconstructs a mail record from the plain column values of one
    /// stored row, in column order.
    pub fn from_row(
        mail_id: i64,
        request_id: String,
        creation_time: i64,
        topic: String,
        destination: String,
        title: String,
        content: String,
    ) -> (m: Mail)
        ensures
            m == (Mail { mail_id, request_id, creation_time, topic, destination, title, content }),
    {
        Mail { mail_id, request_id, creation_time, topic, destination, title, content }
    }
}

} // verus!
