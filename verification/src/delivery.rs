use vstd::prelude::*;
use vstd::string::StringExecFns;

use crate::request::MailNewProps;

verus! {

/// The shared, read-only configuration a process is started with: the
/// sender address, and which delivery backend was selected. The
/// backend is chosen once at startup and never re-selected per
/// request.
#[derive(Debug)]
pub struct Config {
    /// The address outbound mail is sent from.
    pub from_address: String,
    /// When set, outbound mail goes to a local sink instead of the
    /// external provider, and the delivery step cannot fail.
    pub dry_run: bool,
}

impl Clone for Config {
    fn clone(&self) -> (res: Self)
        ensures
            res == *self,
    {
        Config { from_address: self.from_address.clone(), dry_run: self.dry_run }
    }
}

/// One outbound message, shaped for the external provider: sender,
/// recipient, subject, and HTML body.
#[derive(Debug)]
pub struct EmailRequest {
    pub from_address: String,
    pub to_address: String,
    pub subject: String,
    pub html_body: String,
}

impl Clone for EmailRequest {
    fn clone(&self) -> (res: Self)
        ensures
            res == *self,
    {
        EmailRequest {
            from_address: self.from_address.clone(),
            to_address: self.to_address.clone(),
            subject: self.subject.clone(),
            html_body: self.html_body.clone(),
        }
    }
}

/// Decides the delivery step for one create-mail request. In dry-run
/// mode there is nothing to send — no network request exists, so no
/// network call can be made and the delivery step always succeeds.
/// Otherwise the returned message, and nothing else, is what the
/// external provider must be asked to send.
pub fn delivery_action(config: &Config, props: &MailNewProps) -> (r: Option<EmailRequest>)
    ensures
        config.dry_run <==> r is None,
        r matches Some(req) ==> {
            &&& req.from_address@ == config.from_address@
            &&& req.to_address@ == props.destination@
            &&& req.subject@ == props.title@
            &&& req.html_body@ == props.content@
        },
{
    if config.dry_run {
        None
    } else {
        Some(
            EmailRequest {
                from_address: config.from_address.clone(),
                to_address: props.destination.clone(),
                subject: props.title.clone(),
                html_body: props.content.clone(),
            },
        )
    }
}

/// The text the dry-run backend writes to its local sink in place of
/// sending: the topic, recipient, subject and body of the message,
/// one per line.
pub open spec fn spec_local_mail_text(p: MailNewProps) -> Seq<char> {
    "Topic: "@ + p.topic@ + "\nTo: "@ + p.destination@ + "\nSubject: "@ + p.title@ + "\nBody:\n "@
        + p.content@
}

/// Renders the local-sink form of one message. The caller prints it;
/// nothing here performs any side effect.
pub fn render_local_mail(props: &MailNewProps) -> (s: String)
    ensures
        s@ == spec_local_mail_text(*props),
{
    let mut s = String::new();
    s.append("Topic: ");
    s.append(props.topic.as_str());
    s.append("\nTo: ");
    s.append(props.destination.as_str());
    s.append("\nSubject: ");
    s.append(props.title.as_str());
    s.append("\nBody:\n ");
    s.append(props.content.as_str());
    proof {
        assert(s@ =~= spec_local_mail_text(*props));
    }
    s
}

} // verus!
