use vstd::prelude::*;

use crate::db_types::{Mail, StorageError};
use crate::query::{eff_count, eff_offset, page};
use crate::request::{MailNewProps, MailViewProps};

verus! {

/// Well-formedness of the stored sequence: the record at position `i`
/// carries identifier `i + 1`, so the identifiers are exactly
/// `1 ..= len` — strictly increasing, no duplicate, no gap — and the
/// sequence is ordered by ascending identifier.
pub open spec fn store_wf(s: Seq<Mail>) -> bool {
    &&& s.len() <= i64::MAX
    &&& forall|i: int| 0 <= i < s.len() ==> (#[trigger] s[i]).mail_id == i + 1
}

/// The record an insert builds from the caller's fields plus the
/// identifier and timestamp the store assigns.
pub open spec fn spec_new_mail(props: MailNewProps, mail_id: i64, creation_time: i64) -> Mail {
    Mail {
        mail_id,
        request_id: props.request_id,
        creation_time,
        topic: props.topic,
        destination: props.destination,
        title: props.title,
        content: props.content,
    }
}

/// Direct lookup by identifier. Under `store_wf` the record with
/// identifier `mail_id`, if any, sits at position `mail_id - 1`.
pub open spec fn lookup(s: Seq<Mail>, mail_id: int) -> Option<Mail> {
    if 1 <= mail_id <= s.len() {
        Some(s[mail_id - 1])
    } else {
        None
    }
}

/// An absent `mail_id` filter constrains nothing; a present one must
/// hold exactly.
pub open spec fn mail_id_ok(p: MailViewProps, m: Mail) -> bool {
    p.mail_id matches Some(v) ==> m.mail_id == v
}

pub open spec fn request_id_ok(p: MailViewProps, m: Mail) -> bool {
    p.request_id matches Some(ref s) ==> m.request_id@ == s@
}

pub open spec fn min_creation_time_ok(p: MailViewProps, m: Mail) -> bool {
    p.min_creation_time matches Some(v) ==> m.creation_time >= v
}

pub open spec fn max_creation_time_ok(p: MailViewProps, m: Mail) -> bool {
    p.max_creation_time matches Some(v) ==> m.creation_time <= v
}

pub open spec fn topic_ok(p: MailViewProps, m: Mail) -> bool {
    p.topic matches Some(ref s) ==> m.topic@ == s@
}

pub open spec fn destination_ok(p: MailViewProps, m: Mail) -> bool {
    p.destination matches Some(ref s) ==> m.destination@ == s@
}

/// A record is returned exactly when every present filter holds of it;
/// the filters of a set are combined with logical AND.
pub open spec fn spec_mail_matches(p: MailViewProps, m: Mail) -> bool {
    &&& mail_id_ok(p, m)
    &&& request_id_ok(p, m)
    &&& min_creation_time_ok(p, m)
    &&& max_creation_time_ok(p, m)
    &&& topic_ok(p, m)
    &&& destination_ok(p, m)
}

/// The full ordered result set of a filter set, before pagination.
pub open spec fn filtered_mails(s: Seq<Mail>, p: MailViewProps) -> Seq<Mail> {
    s.filter(|m: Mail| spec_mail_matches(p, m))
}

/// Whether `p` has no filter field present at all (pagination fields
/// are not filters).
pub open spec fn no_mail_filters(p: MailViewProps) -> bool {
    &&& p.mail_id is None
    &&& p.request_id is None
    &&& p.min_creation_time is None
    &&& p.max_creation_time is None
    &&& p.topic is None
    &&& p.destination is None
}

/// Whether one mail record passes every present filter of `p`.
pub fn mail_matches(p: &MailViewProps, m: &Mail) -> (b: bool)
    ensures
        b == spec_mail_matches(*p, *m),
{
    let id_ok = match &p.mail_id {
        Some(v) => m.mail_id == *v,
        None => true,
    };
    let rid_ok = match &p.request_id {
        Some(s) => m.request_id == *s,
        None => true,
    };
    let min_ct_ok = match &p.min_creation_time {
        Some(v) => m.creation_time >= *v,
        None => true,
    };
    let max_ct_ok = match &p.max_creation_time {
        Some(v) => m.creation_time <= *v,
        None => true,
    };
    let topic_ok = match &p.topic {
        Some(s) => m.topic == *s,
        None => true,
    };
    let dest_ok = match &p.destination {
        Some(s) => m.destination == *s,
        None => true,
    };
    id_ok && rid_ok && min_ct_ok && max_ct_ok && topic_ok && dest_ok
}

/// The transactional, append-only mail store. All writers serialize
/// through one exclusive handle, so identifier allocation and the row
/// write are atomic with respect to each other: an insert either
/// assigns the next identifier and commits the row, or changes
/// nothing.
pub struct MailStore {
    mails: Vec<Mail>,
}

impl View for MailStore {
    type V = Seq<Mail>;

    closed spec fn view(&self) -> Seq<Mail> {
        self.mails@
    }
}

impl MailStore {
    /// An empty store; trivially well-formed.
    pub fn new() -> (s: MailStore)
        ensures
            s@ == Seq::<Mail>::empty(),
            store_wf(s@),
    {
        MailStore { mails: Vec::new() }
    }

    /// How many records the store holds.
    pub fn len(&self) -> (n: usize)
        ensures
            n == self@.len(),
    {
        self.mails.len()
    }

    /// Inserts one record. The identifier is `max(existing) + 1`, or 1
    /// for an empty store, computed and committed in one atomic step;
    /// a failed insert consumes no identifier and leaves the store
    /// unchanged. Returns the fully populated record.
    pub fn add(&mut self, props: MailNewProps, creation_time: i64) -> (r: Result<
        Mail,
        StorageError,
    >)
        requires
            store_wf(old(self)@),
        ensures
            store_wf(final(self)@),
            r is Ok <==> old(self)@.len() < i64::MAX,
            r matches Ok(m) ==> {
                &&& m == spec_new_mail(props, (old(self)@.len() + 1) as i64, creation_time)
                &&& final(self)@ == old(self)@.push(m)
            },
            r is Err ==> final(self)@ == old(self)@ && r == Err::<Mail, StorageError>(
                StorageError::IdExhausted,
            ),
    {
        if self.mails.len() as u64 >= i64::MAX as u64 {
            return Err(StorageError::IdExhausted);
        }
        let mail_id: i64 = self.mails.len() as i64 + 1;
        let m = Mail {
            mail_id,
            request_id: props.request_id,
            creation_time,
            topic: props.topic,
            destination: props.destination,
            title: props.title,
            content: props.content,
        };
        let ret = m.clone();
        self.mails.push(m);
        Ok(ret)
    }

    /// Direct equality lookup; absence is a result, not an error.
    pub fn get_by_mail_id(&self, mail_id: i64) -> (r: Option<Mail>)
        requires
            store_wf(self@),
        ensures
            r == lookup(self@, mail_id as int),
            r matches Some(m) ==> m.mail_id == mail_id && self@.contains(m),
            r is None ==> forall|i: int|
                0 <= i < self@.len() ==> (#[trigger] self@[i]).mail_id != mail_id,
    {
        if mail_id >= 1 && mail_id as u64 <= self.mails.len() as u64 {
            let m = self.mails[(mail_id - 1) as usize].clone();
            proof {
                assert(self@.contains(self@[mail_id - 1]));
            }
            Some(m)
        } else {
            None
        }
    }

    /// One filtered, paginated scan in ascending identifier order:
    /// exactly the page `[offset, offset + count)` of the records that
    /// pass every present filter. A page past the end is empty, never
    /// an error.
    pub fn query(&self, props: &MailViewProps) -> (r: Vec<Mail>)
        requires
            store_wf(self@),
        ensures
            r@ == page(
                filtered_mails(self@, *props),
                eff_offset(props.offset),
                eff_count(props.count),
            ),
            forall|k: int| 0 <= k < r@.len() ==> spec_mail_matches(*props, #[trigger] r@[k]),
            forall|k1: int, k2: int|
                0 <= k1 < k2 < r@.len() ==> r@[k1].mail_id < r@[k2].mail_id,
    {
        broadcast use vstd::prelude::Seq::lemma_filter_push;

        let n = self.mails.len();
        let mut matched: Vec<Mail> = Vec::new();
        let mut i: usize = 0;
        while i < n
            invariant
                n == self@.len(),
                i <= n,
                store_wf(self@),
                matched@ == filtered_mails(self@.take(i as int), *props),
                forall|k: int|
                    0 <= k < matched@.len() ==> 1 <= (#[trigger] matched@[k]).mail_id <= i,
                forall|k1: int, k2: int|
                    0 <= k1 < k2 < matched@.len() ==> matched@[k1].mail_id < matched@[k2].mail_id,
            decreases n - i,
        {
            let ghost prev = self@.take(i as int);
            proof {
                assert(self@.take(i + 1) =~= prev.push(self@[i as int]));
            }
            if mail_matches(props, &self.mails[i]) {
                matched.push(self.mails[i].clone());
                proof {
                    broadcast use vstd::prelude::Seq::lemma_filter_push;

                    assert(filtered_mails(prev.push(self@[i as int]), *props) == filtered_mails(
                        prev,
                        *props,
                    ).push(self@[i as int]));
                }
            } else {
                proof {
                    broadcast use vstd::prelude::Seq::lemma_filter_push;

                    assert(filtered_mails(prev.push(self@[i as int]), *props) == filtered_mails(
                        prev,
                        *props,
                    ));
                }
            }
            i += 1;
        }
        proof {
            assert(self@.take(n as int) =~= self@);
        }
        let flen = matched.len();
        let lo: usize = match props.offset {
            Some(o) => if o <= 0 {
                0
            } else if o as u64 >= flen as u64 {
                flen
            } else {
                o as usize
            },
            None => 0,
        };
        let rem = flen - lo;
        let want: usize = match props.count {
            Some(c) => if c <= 0 {
                0
            } else if c as u64 >= rem as u64 {
                rem
            } else {
                c as usize
            },
            None => if rem < 100 {
                rem
            } else {
                100
            },
        };
        let hi = lo + want;
        let mut r: Vec<Mail> = Vec::new();
        let mut j: usize = lo;
        while j < hi
            invariant
                lo <= j <= hi <= flen,
                flen == matched@.len(),
                r@ == matched@.subrange(lo as int, j as int),
            decreases hi - j,
        {
            proof {
                assert(matched@.subrange(lo as int, j + 1) =~= matched@.subrange(
                    lo as int,
                    j as int,
                ).push(matched@[j as int]));
            }
            r.push(matched[j].clone());
            j += 1;
        }
        proof {
            assert(r@ =~= page(
                filtered_mails(self@, *props),
                eff_offset(props.offset),
                eff_count(props.count),
            ));
        }
        r
    }
}


/// Whether some record of `s` carries the identifier `id`.
pub open spec fn has_id(s: Seq<Mail>, id: int) -> bool {
    exists|i: int| 0 <= i < s.len() && (#[trigger] s[i]).mail_id == id
}

/// The identifiers of a well-formed store are exactly `1 ..= len`:
/// every identifier in that range occurs, none occurs twice, and no
/// identifier lies outside it. Writers serialize through one
/// exclusive handle, so this holds across any sequence of inserts,
/// regardless of interleaving.
pub proof fn lemma_ids_exactly_one_to_len(s: Seq<Mail>)
    requires
        store_wf(s),
    ensures
        forall|id: int| 1 <= id <= s.len() ==> #[trigger] has_id(s, id),
        forall|i: int, j: int|
            0 <= i < s.len() && 0 <= j < s.len() && i != j ==> s[i].mail_id != s[j].mail_id,
        forall|i: int| 0 <= i < s.len() ==> 1 <= (#[trigger] s[i]).mail_id <= s.len(),
{
    assert forall|id: int| 1 <= id <= s.len() implies #[trigger] has_id(s, id) by {
        assert(s[id - 1].mail_id == id);
    }
}

/// A successful insert is immediately readable: looking the assigned
/// identifier up in the grown store returns exactly the record the
/// insert returned.
pub proof fn lemma_get_after_add(s: Seq<Mail>, m: Mail)
    requires
        store_wf(s),
        s.len() < i64::MAX,
        m.mail_id == s.len() + 1,
    ensures
        lookup(s.push(m), m.mail_id as int) == Some(m),
        store_wf(s.push(m)),
{
}

/// An absent filter field never excludes a record on that field's
/// basis: its predicate holds of every record.
pub proof fn lemma_absent_mail_filter_excludes_nothing(p: MailViewProps, m: Mail)
    ensures
        p.mail_id is None ==> mail_id_ok(p, m),
        p.request_id is None ==> request_id_ok(p, m),
        p.min_creation_time is None ==> min_creation_time_ok(p, m),
        p.max_creation_time is None ==> max_creation_time_ok(p, m),
        p.topic is None ==> topic_ok(p, m),
        p.destination is None ==> destination_ok(p, m),
{
}

/// The empty filter set excludes nothing: the result set before
/// pagination is the whole store.
pub proof fn lemma_no_filters_keeps_all(s: Seq<Mail>, p: MailViewProps)
    requires
        no_mail_filters(p),
    ensures
        filtered_mails(s, p) == s,
    decreases s.len(),
{
    broadcast use vstd::prelude::Seq::lemma_filter_push;

    if s.len() == 0 {
        assert(filtered_mails(s, p) =~= s);
    } else {
        lemma_no_filters_keeps_all(s.drop_last(), p);
        assert(s.drop_last().push(s.last()) =~= s);
        assert(filtered_mails(s, p) =~= s);
    }
}

} // verus!

