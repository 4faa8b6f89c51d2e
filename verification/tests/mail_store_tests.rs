use record_log::db_types::Mail;
use record_log::mail_service::MailStore;
use record_log::request::{MailNewProps, MailViewProps};

fn props(request_id: &str, topic: &str, destination: &str, title: &str, content: &str) -> MailNewProps {
    MailNewProps {
        request_id: request_id.to_string(),
        topic: topic.to_string(),
        destination: destination.to_string(),
        title: title.to_string(),
        content: content.to_string(),
    }
}

fn no_filters() -> MailViewProps {
    MailViewProps {
        mail_id: None,
        request_id: None,
        min_creation_time: None,
        max_creation_time: None,
        topic: None,
        destination: None,
        offset: None,
        count: None,
    }
}

fn assert_mail_eq(a: &Mail, b: &Mail) {
    assert_eq!(a.mail_id, b.mail_id);
    assert_eq!(a.request_id, b.request_id);
    assert_eq!(a.creation_time, b.creation_time);
    assert_eq!(a.topic, b.topic);
    assert_eq!(a.destination, b.destination);
    assert_eq!(a.title, b.title);
    assert_eq!(a.content, b.content);
}

#[test]
fn add_assigns_contiguous_ids() {
    let mut store = MailStore::new();
    for expected in 1..=5i64 {
        let m = store.add(props("r", "t", "d@x", "s", "b"), 10).unwrap();
        assert_eq!(m.mail_id, expected);
    }
    assert_eq!(store.len(), 5);
    let all = store.query(&no_filters());
    let ids: Vec<i64> = all.iter().map(|m| m.mail_id).collect();
    assert_eq!(ids, vec![1, 2, 3, 4, 5]);
}

#[test]
fn get_by_mail_id_returns_the_added_record() {
    let mut store = MailStore::new();
    let added = store.add(props("r1", "news", "a@b.com", "hello", "text"), 42).unwrap();
    let got = store.get_by_mail_id(added.mail_id).unwrap();
    assert_mail_eq(&added, &got);
}

#[test]
fn get_by_mail_id_absent_is_none() {
    let mut store = MailStore::new();
    store.add(props("r1", "t", "a@b.com", "s", "b"), 1).unwrap();
    assert!(store.get_by_mail_id(2).is_none());
    assert!(store.get_by_mail_id(0).is_none());
    assert!(store.get_by_mail_id(-7).is_none());
}

#[test]
fn two_inserts_then_query_by_destination_and_topic() {
    let mut store = MailStore::new();
    let now: i64 = 1_700_000_000_000;
    let first = store
        .add(props("r1", "t", "a@b.com", "hi", "body"), now)
        .unwrap();
    assert_eq!(first.mail_id, 1);
    assert!(first.creation_time > 0);
    let second = store
        .add(props("r2", "t", "a@b.com", "hi again", "body"), now + 1)
        .unwrap();
    assert_eq!(second.mail_id, 2);

    let mut by_dest = no_filters();
    by_dest.destination = Some("a@b.com".to_string());
    let found = store.query(&by_dest);
    assert_eq!(found.len(), 2);
    assert_eq!(found[0].mail_id, 1);
    assert_eq!(found[1].mail_id, 2);

    let mut by_topic = no_filters();
    by_topic.topic = Some("other".to_string());
    assert!(store.query(&by_topic).is_empty());
}

#[test]
fn query_filters_are_anded_and_results_sorted() {
    let mut store = MailStore::new();
    store.add(props("r1", "news", "a@b.com", "s1", "b1"), 100).unwrap();
    store.add(props("r2", "news", "c@d.com", "s2", "b2"), 200).unwrap();
    store.add(props("r1", "alerts", "a@b.com", "s3", "b3"), 300).unwrap();

    let mut p = no_filters();
    p.request_id = Some("r1".to_string());
    p.topic = Some("news".to_string());
    let found = store.query(&p);
    assert_eq!(found.len(), 1);
    assert_eq!(found[0].mail_id, 1);

    let mut by_rid = no_filters();
    by_rid.request_id = Some("r1".to_string());
    let found = store.query(&by_rid);
    assert_eq!(found.len(), 2);
    assert!(found[0].mail_id < found[1].mail_id);
}

#[test]
fn query_by_mail_id_and_time_range() {
    let mut store = MailStore::new();
    store.add(props("r1", "t", "a@b.com", "s", "b"), 100).unwrap();
    store.add(props("r2", "t", "a@b.com", "s", "b"), 200).unwrap();
    store.add(props("r3", "t", "a@b.com", "s", "b"), 300).unwrap();

    let mut by_id = no_filters();
    by_id.mail_id = Some(2);
    let found = store.query(&by_id);
    assert_eq!(found.len(), 1);
    assert_eq!(found[0].request_id, "r2");

    let mut by_range = no_filters();
    by_range.min_creation_time = Some(150);
    by_range.max_creation_time = Some(250);
    let found = store.query(&by_range);
    assert_eq!(found.len(), 1);
    assert_eq!(found[0].mail_id, 2);
}

#[test]
fn absent_min_time_differs_from_zero_min_time() {
    let mut store = MailStore::new();
    store.add(props("r1", "t", "a@b.com", "s", "b"), -5).unwrap();

    let absent = no_filters();
    assert_eq!(store.query(&absent).len(), 1);

    // A present filter whose value happens to be zero must constrain.
    let mut zero = no_filters();
    zero.min_creation_time = Some(0);
    assert!(store.query(&zero).is_empty());
}

#[test]
fn pagination_offset_and_count() {
    let mut store = MailStore::new();
    for i in 0..4i64 {
        store.add(props("r", "t", "a@b.com", "s", "b"), i).unwrap();
    }
    let mut p = no_filters();
    p.offset = Some(1);
    p.count = Some(2);
    let pg = store.query(&p);
    assert_eq!(pg.len(), 2);
    assert_eq!(pg[0].mail_id, 2);
    assert_eq!(pg[1].mail_id, 3);
}

#[test]
fn pagination_past_the_end_is_empty() {
    let mut store = MailStore::new();
    store.add(props("r", "t", "a@b.com", "s", "b"), 1).unwrap();
    let mut p = no_filters();
    p.offset = Some(10);
    assert!(store.query(&p).is_empty());
}

#[test]
fn count_defaults_to_one_hundred() {
    let mut store = MailStore::new();
    for i in 0..105i64 {
        store.add(props("r", "t", "a@b.com", "s", "b"), i).unwrap();
    }
    let pg = store.query(&no_filters());
    assert_eq!(pg.len(), 100);
    assert_eq!(pg[0].mail_id, 1);
    assert_eq!(pg[99].mail_id, 100);
}

#[test]
fn negative_offset_and_count_are_clamped() {
    let mut store = MailStore::new();
    store.add(props("r", "t", "a@b.com", "s", "b"), 1).unwrap();
    let mut p = no_filters();
    p.offset = Some(-3);
    assert_eq!(store.query(&p).len(), 1);
    let mut p = no_filters();
    p.count = Some(-1);
    assert!(store.query(&p).is_empty());
}

#[test]
fn from_row_carries_every_column() {
    let m = Mail::from_row(
        7,
        "rid".to_string(),
        123,
        "top".to_string(),
        "x@y.z".to_string(),
        "tit".to_string(),
        "con".to_string(),
    );
    assert_eq!(m.mail_id, 7);
    assert_eq!(m.request_id, "rid");
    assert_eq!(m.creation_time, 123);
    assert_eq!(m.topic, "top");
    assert_eq!(m.destination, "x@y.z");
    assert_eq!(m.title, "tit");
    assert_eq!(m.content, "con");
}
