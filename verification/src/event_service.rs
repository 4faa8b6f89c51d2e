use vstd::prelude::*;

use crate::db_types::StorageError;
use crate::log_db_types::{
    code_is_valid, spec_decode_row, spec_encode_event, spec_severity_code, Event, EventRow,
};
use crate::query::{clamp0, eff_count, eff_offset, page};
use crate::request::{EventViewProps, LogSeverityKind};

verus! {

/// Well-formedness of the stored rows: the row at position `i`
/// carries identifier `i + 1`, so the identifiers are exactly
/// `1 ..= len` and the rows are ordered by ascending identifier.
pub open spec fn event_store_wf(s: Seq<EventRow>) -> bool {
    &&& s.len() <= i64::MAX
    &&& forall|i: int| 0 <= i < s.len() ==> (#[trigger] s[i]).event_id == i + 1
}

/// An absent filter field constrains nothing; a present one must hold
/// exactly. These predicates speak of raw rows, as the scan does.
pub open spec fn event_id_ok(p: EventViewProps, r: EventRow) -> bool {
    p.event_id matches Some(v) ==> r.event_id == v
}

pub open spec fn event_creation_time_ok(p: EventViewProps, r: EventRow) -> bool {
    p.creation_time matches Some(v) ==> r.creation_time == v
}

pub open spec fn event_min_creation_time_ok(p: EventViewProps, r: EventRow) -> bool {
    p.min_creation_time matches Some(v) ==> r.creation_time >= v
}

pub open spec fn event_max_creation_time_ok(p: EventViewProps, r: EventRow) -> bool {
    p.max_creation_time matches Some(v) ==> r.creation_time <= v
}

pub open spec fn event_source_ok(p: EventViewProps, r: EventRow) -> bool {
    p.source matches Some(ref s) ==> r.source@ == s@
}

pub open spec fn event_msg_ok(p: EventViewProps, r: EventRow) -> bool {
    p.msg matches Some(ref s) ==> r.msg@ == s@
}

/// A severity filter compares the stored code with the code of the
/// wanted variant; a corrupt row matches no severity filter.
pub open spec fn event_severity_ok(p: EventViewProps, r: EventRow) -> bool {
    p.severity_kind matches Some(k) ==> r.severity_code == spec_severity_code(k)
}

/// A row with no duration matches no duration filter, exact or
/// ranged: absence of the column value is not a zero duration.
pub open spec fn event_duration_ok(p: EventViewProps, r: EventRow) -> bool {
    p.duration matches Some(v) ==> r.duration == Some(v)
}

pub open spec fn event_min_duration_ok(p: EventViewProps, r: EventRow) -> bool {
    p.min_duration matches Some(v) ==> (r.duration matches Some(d) && d >= v)
}

pub open spec fn event_max_duration_ok(p: EventViewProps, r: EventRow) -> bool {
    p.max_duration matches Some(v) ==> (r.duration matches Some(d) && d <= v)
}

/// A row is kept exactly when every present filter holds of it; the
/// filters of a set are combined with logical AND.
pub open spec fn spec_event_matches(p: EventViewProps, r: EventRow) -> bool {
    &&& event_id_ok(p, r)
    &&& event_creation_time_ok(p, r)
    &&& event_min_creation_time_ok(p, r)
    &&& event_max_creation_time_ok(p, r)
    &&& event_source_ok(p, r)
    &&& event_msg_ok(p, r)
    &&& event_severity_ok(p, r)
    &&& event_duration_ok(p, r)
    &&& event_min_duration_ok(p, r)
    &&& event_max_duration_ok(p, r)
}

/// Whether `p` has no filter field present at all (pagination and the
/// most-recent reduction are not filters).
pub open spec fn no_event_filters(p: EventViewProps) -> bool {
    &&& p.event_id is None
    &&& p.creation_time is None
    &&& p.min_creation_time is None
    &&& p.max_creation_time is None
    &&& p.source is None
    &&& p.msg is None
    &&& p.severity_kind is None
    &&& p.duration is None
    &&& p.min_duration is None
    &&& p.max_duration is None
}

/// Whether the most-recent-per-key reduction was asked for.
pub open spec fn recent_enabled(p: EventViewProps) -> bool {
    p.recent_by_msg == Some(true)
}

/// Whether `r` is the row with the greatest identifier among the rows
/// of `s` that share its `msg` key.
pub open spec fn is_latest_for_msg(s: Seq<EventRow>, r: EventRow) -> bool {
    forall|j: int| 0 <= j < s.len() && (#[trigger] s[j]).msg@ == r.msg@ ==> s[j].event_id
        <= r.event_id
}

/// Whether one row of the scan over `s` survives: it passes every
/// present filter, and, when the most-recent reduction is on, it is
/// the latest row of its `msg` key.
pub open spec fn spec_event_keep(s: Seq<EventRow>, p: EventViewProps, r: EventRow) -> bool {
    &&& recent_enabled(p) ==> is_latest_for_msg(s, r)
    &&& spec_event_matches(p, r)
}

/// The rows of `prefix` that survive a scan whose reduction looks at
/// the whole of `s`.
pub open spec fn kept_rows(s: Seq<EventRow>, prefix: Seq<EventRow>, p: EventViewProps) -> Seq<
    EventRow,
> {
    prefix.filter(|r: EventRow| spec_event_keep(s, p, r))
}

/// The full ordered result set of a filter set, before pagination and
/// decoding: the optional most-recent-per-key reduction and the
/// filters, applied over the whole store.
pub open spec fn filtered_rows(s: Seq<EventRow>, p: EventViewProps) -> Seq<EventRow> {
    kept_rows(s, s, p)
}

/// Row-level decoding of a scan: a row that decodes is kept, a row
/// that fails to decode is dropped from the result set rather than
/// failing the whole query — partial results are more useful than
/// none on this read path. The caller logs the drop.
pub open spec fn decode_opt(r: EventRow) -> Option<Event> {
    if code_is_valid(r.severity_code) {
        Some(spec_decode_row(r))
    } else {
        None
    }
}

pub open spec fn decoded_rows(rows: Seq<EventRow>) -> Seq<Event> {
    rows.filter_map(|r: EventRow| decode_opt(r))
}

/// The whole read path of one query: reduce and filter, order by
/// ascending identifier, take the page, decode what decodes.
pub open spec fn spec_event_query(s: Seq<EventRow>, p: EventViewProps) -> Seq<Event> {
    decoded_rows(page(filtered_rows(s, p), eff_offset(p.offset), eff_count(p.count)))
}

/// Direct lookup by identifier. Under `event_store_wf` the row with
/// identifier `event_id`, if any, sits at position `event_id - 1`.
pub open spec fn lookup_row(s: Seq<EventRow>, event_id: int) -> Option<EventRow> {
    if 1 <= event_id <= s.len() {
        Some(s[event_id - 1])
    } else {
        None
    }
}

/// What a lookup of one identifier must return: absence is a result,
/// but a row that fails to decode is a storage error — on this single
/// row path nothing is dropped silently.
pub open spec fn spec_get_by_event_id(s: Seq<EventRow>, event_id: int) -> Result<
    Option<Event>,
    StorageError,
> {
    match lookup_row(s, event_id) {
        Some(row) => if code_is_valid(row.severity_code) {
            Ok(Some(spec_decode_row(row)))
        } else {
            Err(StorageError::EnumOutOfRange { code: row.severity_code })
        },
        None => Ok(None),
    }
}

/// The event a successful insert returns, before encoding.
pub open spec fn spec_new_event(
    source: String,
    msg: String,
    severity_kind: LogSeverityKind,
    duration: Option<i64>,
    event_id: i64,
    creation_time: i64,
) -> Event {
    Event { event_id, creation_time, source, msg, severity_kind, duration }
}

/// Whether one event row passes every present filter of `p`.
pub fn event_matches(p: &EventViewProps, r: &EventRow) -> (b: bool)
    ensures
        b == spec_event_matches(*p, *r),
{
    let id_ok = match &p.event_id {
        Some(v) => r.event_id == *v,
        None => true,
    };
    let ct_ok = match &p.creation_time {
        Some(v) => r.creation_time == *v,
        None => true,
    };
    let min_ct_ok = match &p.min_creation_time {
        Some(v) => r.creation_time >= *v,
        None => true,
    };
    let max_ct_ok = match &p.max_creation_time {
        Some(v) => r.creation_time <= *v,
        None => true,
    };
    let source_ok = match &p.source {
        Some(s) => r.source == *s,
        None => true,
    };
    let msg_ok = match &p.msg {
        Some(s) => r.msg == *s,
        None => true,
    };
    let sev_ok = match &p.severity_kind {
        Some(k) => r.severity_code == crate::log_db_types::severity_to_code(k),
        None => true,
    };
    let dur_ok = match &p.duration {
        Some(v) => match &r.duration {
            Some(d) => *d == *v,
            None => false,
        },
        None => true,
    };
    let min_dur_ok = match &p.min_duration {
        Some(v) => match &r.duration {
            Some(d) => *d >= *v,
            None => false,
        },
        None => true,
    };
    let max_dur_ok = match &p.max_duration {
        Some(v) => match &r.duration {
            Some(d) => *d <= *v,
            None => false,
        },
        None => true,
    };
    id_ok && ct_ok && min_ct_ok && max_ct_ok && source_ok && msg_ok && sev_ok && dur_ok
        && min_dur_ok && max_dur_ok
}

/// Whether row `i` is the latest of its `msg` key within `rows`.
#[verifier::loop_isolation(false)]
fn is_latest_for_msg_at(rows: &Vec<EventRow>, i: usize) -> (b: bool)
    requires
        i < rows@.len(),
    ensures
        b == is_latest_for_msg(rows@, rows@[i as int]),
{
    let mut j: usize = 0;
    while j < rows.len()
        invariant
            j <= rows@.len(),
            forall|k: int|
                0 <= k < j ==> ((#[trigger] rows@[k]).msg@ == rows@[i as int].msg@ ==> rows@[k].event_id
                    <= rows@[i as int].event_id),
        decreases rows@.len() - j,
    {
        if rows[j].msg == rows[i].msg && rows[j].event_id > rows[i].event_id {
            return false;
        }
        j += 1;
    }
    true
}

/// The transactional, append-only event store. As with the mail
/// store, all writers serialize through one exclusive handle: an
/// insert either assigns the next identifier and commits the row
/// inside one savepoint-like atomic step, or changes nothing.
pub struct EventStore {
    rows: Vec<EventRow>,
}

impl View for EventStore {
    type V = Seq<EventRow>;

    closed spec fn view(&self) -> Seq<EventRow> {
        self.rows@
    }
}

impl EventStore {
    /// An empty store; trivially well-formed.
    pub fn new() -> (s: EventStore)
        ensures
            s@ == Seq::<EventRow>::empty(),
            event_store_wf(s@),
    {
        EventStore { rows: Vec::new() }
    }

    /// How many rows the store holds.
    pub fn len(&self) -> (n: usize)
        ensures
            n == self@.len(),
    {
        self.rows.len()
    }

    /// Reopens a store over rows read back from storage, after
    /// checking the identifier invariant this store guarantees. The
    /// severity column stays raw: corruption there is discovered on
    /// read, per row.
    #[verifier::loop_isolation(false)]
    pub fn from_rows(rows: Vec<EventRow>) -> (r: Result<EventStore, StorageError>)
        ensures
            r is Ok <==> event_store_wf(rows@),
            r matches Ok(st) ==> st@ == rows@,
            r is Err ==> r == Err::<EventStore, StorageError>(StorageError::NonContiguousIds),
    {
        if rows.len() as u64 > i64::MAX as u64 {
            return Err(StorageError::NonContiguousIds);
        }
        let mut i: usize = 0;
        while i < rows.len()
            invariant
                i <= rows@.len(),
                forall|k: int| 0 <= k < i ==> (#[trigger] rows@[k]).event_id == k + 1,
            decreases rows@.len() - i,
        {
            if rows[i].event_id != i as i64 + 1 {
                return Err(StorageError::NonContiguousIds);
            }
            i += 1;
        }
        Ok(EventStore { rows })
    }

    /// The identifier the next insert will assign: `max(existing) + 1`
    /// read within the same atomic scope as the insert, or 1 for an
    /// empty store.
    pub fn next_id(&self) -> (r: Result<i64, StorageError>)
        requires
            event_store_wf(self@),
        ensures
            r is Ok <==> self@.len() < i64::MAX,
            r matches Ok(id) ==> id == self@.len() + 1,
            r is Err ==> r == Err::<i64, StorageError>(StorageError::IdExhausted),
    {
        if self.rows.len() as u64 >= i64::MAX as u64 {
            Err(StorageError::IdExhausted)
        } else {
            Ok(self.rows.len() as i64 + 1)
        }
    }

    /// Inserts one event. Identifier allocation and the row write
    /// happen in one atomic step; a failed insert consumes no
    /// identifier and leaves the store unchanged. Returns the fully
    /// populated event.
    pub fn add(
        &mut self,
        source: String,
        msg: String,
        severity_kind: LogSeverityKind,
        duration: Option<i64>,
        creation_time: i64,
    ) -> (r: Result<Event, StorageError>)
        requires
            event_store_wf(old(self)@),
        ensures
            event_store_wf(final(self)@),
            r is Ok <==> old(self)@.len() < i64::MAX,
            r matches Ok(e) ==> {
                &&& e == spec_new_event(
                    source,
                    msg,
                    severity_kind,
                    duration,
                    (old(self)@.len() + 1) as i64,
                    creation_time,
                )
                &&& final(self)@ == old(self)@.push(spec_encode_event(e))
            },
            r is Err ==> final(self)@ == old(self)@ && r == Err::<Event, StorageError>(
                StorageError::IdExhausted,
            ),
    {
        if self.rows.len() as u64 >= i64::MAX as u64 {
            return Err(StorageError::IdExhausted);
        }
        let event_id: i64 = self.rows.len() as i64 + 1;
        let e = Event { event_id, creation_time, source, msg, severity_kind, duration };
        let row = EventRow {
            event_id,
            creation_time,
            source: e.source.clone(),
            msg: e.msg.clone(),
            severity_code: crate::log_db_types::severity_to_code(&severity_kind),
            duration,
        };
        self.rows.push(row);
        Ok(e)
    }

    /// Direct equality lookup. Absence is `Ok(None)`; a row whose
    /// severity fails to decode is a storage error.
    pub fn get_by_event_id(&self, event_id: i64) -> (r: Result<Option<Event>, StorageError>)
        requires
            event_store_wf(self@),
        ensures
            r == spec_get_by_event_id(self@, event_id as int),
            r matches Ok(Some(e)) ==> e.event_id == event_id,
    {
        if event_id >= 1 && event_id as u64 <= self.rows.len() as u64 {
            match Event::try_from_row(&self.rows[(event_id - 1) as usize]) {
                Ok(e) => Ok(Some(e)),
                Err(er) => Err(er),
            }
        } else {
            Ok(None)
        }
    }

    /// One filtered, paginated scan in ascending identifier order:
    /// exactly the page `[offset, offset + count)` of the rows that
    /// survive the optional most-recent-per-key reduction and every
    /// present filter, each surviving row decoded, rows that fail to
    /// decode dropped. A page past the end is empty, never an error.
    #[verifier::loop_isolation(false)]
    #[verifier::rlimit(60)]
    pub fn query(&self, props: &EventViewProps) -> (r: Vec<Event>)
        requires
            event_store_wf(self@),
        ensures
            r@ == spec_event_query(self@, *props),
            forall|k1: int, k2: int|
                0 <= k1 < k2 < r@.len() ==> r@[k1].event_id < r@[k2].event_id,
    {
        broadcast use vstd::prelude::Seq::lemma_filter_push;
        broadcast use vstd::prelude::Seq::lemma_filter_map_take_succ;

        let recent = match props.recent_by_msg {
            Some(b) => b,
            None => false,
        };
        let n = self.rows.len();
        let mut matched: Vec<EventRow> = Vec::new();
        let mut i: usize = 0;
        while i < n
            invariant
                i <= n,
                matched@ == kept_rows(self@, self@.take(i as int), *props),
                forall|k: int|
                    0 <= k < matched@.len() ==> 1 <= (#[trigger] matched@[k]).event_id <= i,
                forall|k1: int, k2: int|
                    0 <= k1 < k2 < matched@.len() ==> matched@[k1].event_id
                        < matched@[k2].event_id,
            decreases n - i,
        {
            let ghost prev = self@.take(i as int);
            proof {
                assert(self@.take(i + 1) =~= prev.push(self@[i as int]));
            }
            let keep = if event_matches(props, &self.rows[i]) {
                if recent {
                    is_latest_for_msg_at(&self.rows, i)
                } else {
                    true
                }
            } else {
                false
            };
            if keep {
                matched.push(self.rows[i].clone());
                proof {
                    assert(kept_rows(self@, prev.push(self@[i as int]), *props) == kept_rows(
                        self@,
                        prev,
                        *props,
                    ).push(self@[i as int]));
                }
            } else {
                proof {
                    assert(kept_rows(self@, prev.push(self@[i as int]), *props) == kept_rows(
                        self@,
                        prev,
                        *props,
                    ));
                }
            }
            i += 1;
        }
        proof {
            assert(self@.take(n as int) =~= self@);
        }
        let flen = matched.len();
        let lo: usize = match props.offset {
            Some(o) => if o <= 0 {
                0
            } else if o as u64 >= flen as u64 {
                flen
            } else {
                o as usize
            },
            None => 0,
        };
        let rem = flen - lo;
        let want: usize = match props.count {
            Some(c) => if c <= 0 {
                0
            } else if c as u64 >= rem as u64 {
                rem
            } else {
                c as usize
            },
            None => if rem < 100 {
                rem
            } else {
                100
            },
        };
        let hi = lo + want;
        let mut paged: Vec<EventRow> = Vec::new();
        let mut j: usize = lo;
        while j < hi
            invariant
                lo <= j <= hi <= flen,
                paged@ == matched@.subrange(lo as int, j as int),
            decreases hi - j,
        {
            proof {
                assert(matched@.subrange(lo as int, j + 1) =~= matched@.subrange(
                    lo as int,
                    j as int,
                ).push(matched@[j as int]));
            }
            paged.push(matched[j].clone());
            j += 1;
        }
        proof {
            assert(paged@ =~= page(
                filtered_rows(self@, *props),
                eff_offset(props.offset),
                eff_count(props.count),
            ));
        }
        let mut out: Vec<Event> = Vec::new();
        let mut k: usize = 0;
        while k < paged.len()
            invariant
                k <= paged@.len(),
                out@ == decoded_rows(paged@.take(k as int)),
                forall|a1: int, a2: int|
                    0 <= a1 < a2 < out@.len() ==> out@[a1].event_id < out@[a2].event_id,
                out@.len() > 0 ==> k > 0 && out@.last().event_id <= paged@[k - 1].event_id,
            decreases paged@.len() - k,
        {
            match Event::try_from_row(&paged[k]) {
                Ok(e) => out.push(e),
                Err(_) => (),
            }
            proof {
                assert(paged@.take(k + 1) =~= paged@.take(k as int).push(paged@[k as int]));
            }
            k += 1;
        }
        proof {
            assert(paged@.take(paged@.len() as int) =~= paged@);
        }
        out
    }
}

/// Whether some row of `s` carries the identifier `id`.
pub open spec fn has_event_id(s: Seq<EventRow>, id: int) -> bool {
    exists|i: int| 0 <= i < s.len() && (#[trigger] s[i]).event_id == id
}

/// The identifiers of a well-formed event store are exactly
/// `1 ..= len`: every identifier in that range occurs, none occurs
/// twice, and no identifier lies outside it, across any sequence of
/// inserts.
pub proof fn lemma_event_ids_exactly_one_to_len(s: Seq<EventRow>)
    requires
        event_store_wf(s),
    ensures
        forall|id: int| 1 <= id <= s.len() ==> #[trigger] has_event_id(s, id),
        forall|i: int, j: int|
            0 <= i < s.len() && 0 <= j < s.len() && i != j ==> s[i].event_id != s[j].event_id,
        forall|i: int| 0 <= i < s.len() ==> 1 <= (#[trigger] s[i]).event_id <= s.len(),
{
    assert forall|id: int| 1 <= id <= s.len() implies #[trigger] has_event_id(s, id) by {
        assert(s[id - 1].event_id == id);
    }
}

/// A successful insert is immediately readable: looking the assigned
/// identifier up in the grown store decodes back exactly the event
/// the insert returned.
pub proof fn lemma_get_after_add_event(s: Seq<EventRow>, e: Event)
    requires
        event_store_wf(s),
        s.len() < i64::MAX,
        e.event_id == s.len() + 1,
    ensures
        event_store_wf(s.push(spec_encode_event(e))),
        spec_get_by_event_id(s.push(spec_encode_event(e)), e.event_id as int) == Ok::<
            Option<Event>,
            StorageError,
        >(Some(e)),
{
    crate::log_db_types::lemma_decode_encode(e);
}

/// An absent filter field never excludes a row on that field's basis:
/// its predicate holds of every row.
pub proof fn lemma_absent_event_filter_excludes_nothing(p: EventViewProps, r: EventRow)
    ensures
        p.event_id is None ==> event_id_ok(p, r),
        p.creation_time is None ==> event_creation_time_ok(p, r),
        p.min_creation_time is None ==> event_min_creation_time_ok(p, r),
        p.max_creation_time is None ==> event_max_creation_time_ok(p, r),
        p.source is None ==> event_source_ok(p, r),
        p.msg is None ==> event_msg_ok(p, r),
        p.severity_kind is None ==> event_severity_ok(p, r),
        p.duration is None ==> event_duration_ok(p, r),
        p.min_duration is None ==> event_min_duration_ok(p, r),
        p.max_duration is None ==> event_max_duration_ok(p, r),
{
}

/// Every event a query returns satisfies every present filter, and,
/// when the most-recent reduction is on, is the latest of its `msg`
/// key: re-encoding it gives back exactly a surviving row of the
/// scan.
pub proof fn lemma_event_query_all_match(s: Seq<EventRow>, p: EventViewProps)
    ensures
        forall|e: Event| #[trigger] spec_event_query(s, p).contains(e) ==> spec_event_keep(
            s,
            p,
            spec_encode_event(e),
        ),
{
    broadcast use vstd::prelude::Seq::lemma_filter_map_contains;
    broadcast use vstd::prelude::Seq::lemma_filter_pred;

    let filtered = filtered_rows(s, p);
    let paged = page(filtered, eff_offset(p.offset), eff_count(p.count));
    assert forall|e: Event| #[trigger] spec_event_query(s, p).contains(e) implies spec_event_keep(
        s,
        p,
        spec_encode_event(e),
    ) by {
        assert(exists|t: EventRow| paged.contains(t) && decode_opt(t) == Some(e));
        let row = choose|t: EventRow| paged.contains(t) && decode_opt(t) == Some(e);
        let i = choose|i: int| 0 <= i < paged.len() && paged[i] == row;
        assert(paged[i] == filtered[clamp0(eff_offset(p.offset)) + i]);
        assert(spec_event_keep(s, p, row));
        crate::log_db_types::lemma_encode_decode(row);
    }
}

/// With no filters present and the most-recent reduction off, the
/// result set before pagination is the whole store.
pub proof fn lemma_no_event_filters_keeps_all(s: Seq<EventRow>, whole: Seq<EventRow>, p: EventViewProps)
    requires
        no_event_filters(p),
        !recent_enabled(p),
    ensures
        kept_rows(whole, s, p) == s,
    decreases s.len(),
{
    broadcast use vstd::prelude::Seq::lemma_filter_push;

    if s.len() == 0 {
        assert(kept_rows(whole, s, p) =~= s);
    } else {
        lemma_no_event_filters_keeps_all(s.drop_last(), whole, p);
        assert(s.drop_last().push(s.last()) =~= s);
        assert(kept_rows(whole, s, p) =~= s);
    }
}

} // verus!
