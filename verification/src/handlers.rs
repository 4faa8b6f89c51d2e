use vstd::prelude::*;

use crate::db_types::Mail;
use crate::mail_service::{filtered_mails, spec_new_mail, store_wf, MailStore};
use crate::query::{eff_count, eff_offset, page};
use crate::request::{MailNewProps, MailViewProps};
use crate::response;
use crate::response::MailError;

verus! {

/// What the delivery step reported before the record is persisted.
/// The dry-run backend only ever reports `Skipped`: it makes no
/// network call, so it cannot fail.
#[derive(Clone, Copy, Debug, PartialEq, Eq, Structural)]
pub enum DeliveryResult {
    /// Dry-run mode: the message went to the local sink.
    Skipped,
    /// The external provider accepted the message.
    Delivered,
    /// The external provider failed; the caller must be told.
    Failed,
}

/// The response form of a stored mail record: every field carried
/// over unchanged.
pub open spec fn spec_fill_mail(m: Mail) -> response::Mail {
    response::Mail {
        mail_id: m.mail_id,
        request_id: m.request_id,
        creation_time: m.creation_time,
        topic: m.topic,
        destination: m.destination,
        title: m.title,
        content: m.content,
    }
}

/// Shapes one stored record into its response form; this conversion
/// itself cannot fail.
pub fn fill_mail(mail: Mail) -> (r: Result<response::Mail, MailError>)
    ensures
        r == Ok::<response::Mail, MailError>(spec_fill_mail(mail)),
{
    Ok(
        response::Mail {
            mail_id: mail.mail_id,
            request_id: mail.request_id,
            creation_time: mail.creation_time,
            topic: mail.topic,
            destination: mail.destination,
            title: mail.title,
            content: mail.content,
        },
    )
}

/// Orchestrates one create-mail request, after the delivery step ran:
/// a failed delivery surfaces as `Unknown` and persists nothing — a
/// "sent but not recorded" state is never masked as success — and
/// otherwise the record is inserted and returned fully populated.
/// Every failure that leaves here is already collapsed to the closed
/// error vocabulary.
pub fn mail_new(
    store: &mut MailStore,
    props: MailNewProps,
    delivery: DeliveryResult,
    creation_time: i64,
) -> (r: Result<response::Mail, MailError>)
    requires
        store_wf(old(store)@),
    ensures
        store_wf(final(store)@),
        r is Ok <==> (!(delivery is Failed) && old(store)@.len() < i64::MAX),
        r matches Ok(resp) ==> ({
            let m = spec_new_mail(props, (old(store)@.len() + 1) as i64, creation_time);
            &&& final(store)@ == old(store)@.push(m)
            &&& resp == spec_fill_mail(m)
        }),
        r is Err ==> final(store)@ == old(store)@ && r == Err::<response::Mail, MailError>(
            MailError::Unknown,
        ),
{
    match delivery {
        DeliveryResult::Failed => Err(MailError::Unknown),
        _ => match store.add(props, creation_time) {
            Ok(m) => fill_mail(m),
            Err(_) => Err(MailError::Unknown),
        },
    }
}

/// Orchestrates one view-mail request: the filtered, ordered,
/// paginated scan, each record shaped into its response form. A read
/// never fails, and a page past the end is empty.
pub fn mail_view(store: &MailStore, props: &MailViewProps) -> (r: Result<
    Vec<response::Mail>,
    MailError,
>)
    requires
        store_wf(store@),
    ensures
        r is Ok,
        r matches Ok(v) ==> v@ == page(
            filtered_mails(store@, *props),
            eff_offset(props.offset),
            eff_count(props.count),
        ).map_values(|m: Mail| spec_fill_mail(m)),
{
    let mails = store.query(props);
    let mut out: Vec<response::Mail> = Vec::new();
    let mut i: usize = 0;
    while i < mails.len()
        invariant
            i <= mails@.len(),
            out@ == mails@.take(i as int).map_values(|m: Mail| spec_fill_mail(m)),
        decreases mails@.len() - i,
    {
        let m = &mails[i];
        out.push(
            response::Mail {
                mail_id: m.mail_id,
                request_id: m.request_id.clone(),
                creation_time: m.creation_time,
                topic: m.topic.clone(),
                destination: m.destination.clone(),
                title: m.title.clone(),
                content: m.content.clone(),
            },
        );
        proof {
            assert(out@ =~= mails@.take(i + 1).map_values(|m: Mail| spec_fill_mail(m)));
        }
        i += 1;
    }
    proof {
        assert(mails@.take(mails@.len() as int) =~= mails@);
    }
    Ok(out)
}

} // verus!
