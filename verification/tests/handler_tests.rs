use record_log::api::{handle_rejection, RejectionKind};
use record_log::delivery::{delivery_action, render_local_mail, Config};
use record_log::handlers::{fill_mail, mail_new, mail_view, DeliveryResult};
use record_log::mail_service::MailStore;
use record_log::request::{MailNewProps, MailViewProps};
use record_log::response::{mail_error_status, MailError};

fn props() -> MailNewProps {
    MailNewProps {
        request_id: "r1".to_string(),
        topic: "t".to_string(),
        destination: "a@b.com".to_string(),
        title: "hi".to_string(),
        content: "body".to_string(),
    }
}

fn no_filters() -> MailViewProps {
    MailViewProps {
        mail_id: None,
        request_id: None,
        min_creation_time: None,
        max_creation_time: None,
        topic: None,
        destination: None,
        offset: None,
        count: None,
    }
}

#[test]
fn info_lists_name_and_version() {
    let info = record_log::api::api_info();
    assert_eq!(
        info,
        vec![
            ("version".to_string(), "0.1".to_string()),
            ("name".to_string(), "mail-service".to_string()),
        ]
    );
}

#[test]
fn statuses_follow_the_closed_taxonomy() {
    assert_eq!(mail_error_status(&MailError::NotFound), 404);
    assert_eq!(mail_error_status(&MailError::BadRequest), 400);
    assert_eq!(mail_error_status(&MailError::MethodNotAllowed), 405);
    assert_eq!(mail_error_status(&MailError::Unknown), 500);
}

#[test]
fn undecodable_body_is_bad_request_never_unknown() {
    let (status, code) = handle_rejection(&RejectionKind::BodyDeserialize);
    assert_eq!(status, 400);
    assert_eq!(code, MailError::BadRequest);
    assert_ne!(code, MailError::Unknown);
}

#[test]
fn every_rejection_kind_maps_to_its_status_and_code() {
    assert_eq!(
        handle_rejection(&RejectionKind::RouteNotFound),
        (404, MailError::NotFound)
    );
    assert_eq!(
        handle_rejection(&RejectionKind::MethodNotAllowed),
        (405, MailError::MethodNotAllowed)
    );
    assert_eq!(
        handle_rejection(&RejectionKind::UnknownKind),
        (500, MailError::Unknown)
    );
    assert_eq!(
        handle_rejection(&RejectionKind::Handler(MailError::Unknown)),
        (500, MailError::Unknown)
    );
    assert_eq!(
        handle_rejection(&RejectionKind::Handler(MailError::BadRequest)),
        (400, MailError::BadRequest)
    );
}

#[test]
fn dry_run_has_no_network_request_to_send() {
    let config = Config { from_address: "noreply@svc".to_string(), dry_run: true };
    assert!(delivery_action(&config, &props()).is_none());
}

#[test]
fn external_mode_shapes_the_outbound_message() {
    let config = Config { from_address: "noreply@svc".to_string(), dry_run: false };
    let req = delivery_action(&config, &props()).unwrap();
    assert_eq!(req.from_address, "noreply@svc");
    assert_eq!(req.to_address, "a@b.com");
    assert_eq!(req.subject, "hi");
    assert_eq!(req.html_body, "body");
}

#[test]
fn local_sink_text_lists_the_message() {
    let s = render_local_mail(&props());
    assert_eq!(s, "Topic: t\nTo: a@b.com\nSubject: hi\nBody:\n body");
}

#[test]
fn mail_new_dry_run_always_succeeds_and_persists() {
    let mut store = MailStore::new();
    let resp = mail_new(&mut store, props(), DeliveryResult::Skipped, 7).unwrap();
    assert_eq!(resp.mail_id, 1);
    assert_eq!(resp.request_id, "r1");
    assert_eq!(resp.creation_time, 7);
    assert_eq!(store.len(), 1);
    let stored = store.get_by_mail_id(1).unwrap();
    assert_eq!(stored.destination, resp.destination);
}

#[test]
fn mail_new_after_delivery_persists() {
    let mut store = MailStore::new();
    let resp = mail_new(&mut store, props(), DeliveryResult::Delivered, 7).unwrap();
    assert_eq!(resp.mail_id, 1);
    assert_eq!(store.len(), 1);
}

#[test]
fn failed_delivery_surfaces_unknown_and_persists_nothing() {
    let mut store = MailStore::new();
    let r = mail_new(&mut store, props(), DeliveryResult::Failed, 7);
    assert_eq!(r.err(), Some(MailError::Unknown));
    assert_eq!(store.len(), 0);
    assert!(store.get_by_mail_id(1).is_none());
}

#[test]
fn mail_view_returns_the_filtered_page() {
    let mut store = MailStore::new();
    mail_new(&mut store, props(), DeliveryResult::Skipped, 1).unwrap();
    let mut other = props();
    other.topic = "other".to_string();
    mail_new(&mut store, other, DeliveryResult::Skipped, 2).unwrap();

    let mut p = no_filters();
    p.topic = Some("t".to_string());
    let v = mail_view(&store, &p).unwrap();
    assert_eq!(v.len(), 1);
    assert_eq!(v[0].mail_id, 1);
    assert_eq!(v[0].topic, "t");

    let all = mail_view(&store, &no_filters()).unwrap();
    assert_eq!(all.len(), 2);
}

#[test]
fn fill_mail_carries_every_field() {
    let m = record_log::db_types::Mail::from_row(
        3,
        "r".to_string(),
        11,
        "t".to_string(),
        "d@x".to_string(),
        "s".to_string(),
        "c".to_string(),
    );
    let filled = fill_mail(m).unwrap();
    assert_eq!(filled.mail_id, 3);
    assert_eq!(filled.request_id, "r");
    assert_eq!(filled.creation_time, 11);
    assert_eq!(filled.topic, "t");
    assert_eq!(filled.destination, "d@x");
    assert_eq!(filled.title, "s");
    assert_eq!(filled.content, "c");
}
