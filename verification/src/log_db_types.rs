use vstd::prelude::*;

use crate::db_types::StorageError;
use crate::request::LogSeverityKind;

verus! {

/// The integer code each severity is stored under.
pub open spec fn spec_severity_code(k: LogSeverityKind) -> u8 {
    match k {
        LogSeverityKind::Error => 0u8,
        LogSeverityKind::Warning => 1u8,
        LogSeverityKind::Info => 2u8,
        LogSeverityKind::Debug => 3u8,
    }
}

/// Whether a stored code belongs to a known severity.
pub open spec fn code_is_valid(c: u8) -> bool {
    c <= 3
}

/// The severity a valid stored code decodes to.
pub open spec fn spec_severity_from_code(c: u8) -> LogSeverityKind
    recommends
        code_is_valid(c),
{
    if c == 0 {
        LogSeverityKind::Error
    } else if c == 1 {
        LogSeverityKind::Warning
    } else if c == 2 {
        LogSeverityKind::Info
    } else {
        LogSeverityKind::Debug
    }
}

/// Encodes a severity for storage.
pub fn severity_to_code(k: &LogSeverityKind) -> (c: u8)
    ensures
        c == spec_severity_code(*k),
        code_is_valid(c),
{
    match k {
        LogSeverityKind::Error => 0,
        LogSeverityKind::Warning => 1,
        LogSeverityKind::Info => 2,
        LogSeverityKind::Debug => 3,
    }
}

/// Decodes a stored severity code. A value outside the known range is
/// a data-corruption error, never a silent default.
pub fn severity_from_code(c: u8) -> (r: Result<LogSeverityKind, StorageError>)
    ensures
        r is Ok <==> code_is_valid(c),
        r matches Ok(k) ==> k == spec_severity_from_code(c) && spec_severity_code(k) == c,
        r is Err ==> r == Err::<LogSeverityKind, StorageError>(
            StorageError::EnumOutOfRange { code: c },
        ),
{
    match c {
        0 => Ok(LogSeverityKind::Error),
        1 => Ok(LogSeverityKind::Warning),
        2 => Ok(LogSeverityKind::Info),
        3 => Ok(LogSeverityKind::Debug),
        _ => Err(StorageError::EnumOutOfRange { code: c }),
    }
}

/// Severity encoding and decoding invert each other on the valid
/// range.
pub proof fn lemma_severity_code_roundtrip(k: LogSeverityKind, c: u8)
    ensures
        spec_severity_from_code(spec_severity_code(k)) == k,
        code_is_valid(c) ==> spec_severity_code(spec_severity_from_code(c)) == c,
{
}

/// One immutable event record, as callers see it: the severity is
/// already decoded to a known variant.
#[derive(Debug)]
pub struct Event {
    /// Unique, strictly increasing, assigned by the store at insert.
    pub event_id: i64,
    /// Milliseconds since the epoch, assigned by the server at insert.
    pub creation_time: i64,
    /// Who reported the event.
    pub source: String,
    /// The logged message, also used as the distinct key of the
    /// most-recent-per-key query mode.
    pub msg: String,
    pub severity_kind: LogSeverityKind,
    /// An optional measured duration; absence is not a zero duration.
    pub duration: Option<i64>,
}

impl Clone for Event {
    fn clone(&self) -> (res: Self)
        ensures
            res == *self,
    {
        Event {
            event_id: self.event_id,
            creation_time: self.creation_time,
            source: self.source.clone(),
            msg: self.msg.clone(),
            severity_kind: self.severity_kind,
            duration: self.duration,
        }
    }
}

/// One session of a reporting service.
#[derive(Debug)]
pub struct Session {
    pub session_id: i64,
    pub creation_time: i64,
    pub service_name: String,
}

impl Clone for Session {
    fn clone(&self) -> (res: Self)
        ensures
            res == *self,
    {
        Session {
            session_id: self.session_id,
            creation_time: self.creation_time,
            service_name: self.service_name.clone(),
        }
    }
}

/// One stored event row, with the severity column still raw: a row
/// read back from storage may carry a code no known variant maps to.
#[derive(Debug)]
pub struct EventRow {
    pub event_id: i64,
    pub creation_time: i64,
    pub source: String,
    pub msg: String,
    pub severity_code: u8,
    pub duration: Option<i64>,
}

impl Clone for EventRow {
    fn clone(&self) -> (res: Self)
        ensures
            res == *self,
    {
        EventRow {
            event_id: self.event_id,
            creation_time: self.creation_time,
            source: self.source.clone(),
            msg: self.msg.clone(),
            severity_code: self.severity_code,
            duration: self.duration,
        }
    }
}

/// What a valid row decodes to.
pub open spec fn spec_decode_row(r: EventRow) -> Event
    recommends
        code_is_valid(r.severity_code),
{
    Event {
        event_id: r.event_id,
        creation_time: r.creation_time,
        source: r.source,
        msg: r.msg,
        severity_kind: spec_severity_from_code(r.severity_code),
        duration: r.duration,
    }
}

/// The row an event is stored as.
pub open spec fn spec_encode_event(e: Event) -> EventRow {
    EventRow {
        event_id: e.event_id,
        creation_time: e.creation_time,
        source: e.source,
        msg: e.msg,
        severity_code: spec_severity_code(e.severity_kind),
        duration: e.duration,
    }
}

/// Decoding a row the store itself encoded gives the event back
/// unchanged.
pub proof fn lemma_decode_encode(e: Event)
    ensures
        code_is_valid(spec_encode_event(e).severity_code),
        spec_decode_row(spec_encode_event(e)) == e,
{
    lemma_severity_code_roundtrip(e.severity_kind, 0);
}

/// Re-encoding what a valid row decoded to gives the row back
/// unchanged.
pub proof fn lemma_encode_decode(r: EventRow)
    requires
        code_is_valid(r.severity_code),
    ensures
        spec_encode_event(spec_decode_row(r)) == r,
{
    lemma_severity_code_roundtrip(LogSeverityKind::Error, r.severity_code);
}

impl Event {
    /// Strict row decoding: succeeds exactly when the severity column
    /// maps to a known variant, and fails with the corrupt code
    /// otherwise — never an empty result.
    pub fn try_from_row(row: &EventRow) -> (r: Result<Event, StorageError>)
        ensures
            r is Ok <==> code_is_valid(row.severity_code),
            r matches Ok(e) ==> e == spec_decode_row(*row),
            r is Err ==> r == Err::<Event, StorageError>(
                StorageError::EnumOutOfRange { code: row.severity_code },
            ),
    {
        match severity_from_code(row.severity_code) {
            Ok(k) => Ok(
                Event {
                    event_id: row.event_id,
                    creation_time: row.creation_time,
                    source: row.source.clone(),
                    msg: row.msg.clone(),
                    severity_kind: k,
                    duration: row.duration,
                },
            ),
            Err(e) => Err(e),
        }
    }
}

} // verus!
