use panorama_mail::mail::AgentMessage;
use panorama_mail::store::sqlite_and_tantivy::{
    count_from_column, decode_recipients, encode_recipients, index_document, is_lock_busy,
    locked_index_error, mark_read_outcome, now_secs, placeholder_list, select_by_uids_sql,
    stored_email_from_row, timestamp_from_secs, uids_from_hits, upsert_values, EmailRow,
};
use panorama_mail::store::StoreError;

fn message() -> AgentMessage {
    AgentMessage {
        uid: 4000000000,
        subject: Some("Hello".into()),
        from: Some("ann@example.com".into()),
        to: vec!["bob@example.com".into(), "c \"q\"@x".into()],
        date: Some("2026-05-08".into()),
        body: Some("text".into()),
        html_body: None,
        attachments: vec![],
    }
}

#[test]
fn recipients_column_round_trip() {
    let m = message();
    let text = encode_recipients(&m.to);
    assert_eq!(text, "[\"bob@example.com\",\"c \\\"q\\\"@x\"]");
    assert_eq!(decode_recipients(&text), m.to);
    assert!(decode_recipients("not json").is_empty());
    assert!(decode_recipients("").is_empty());
    assert_eq!(encode_recipients(&vec![]), "[]");
}

#[test]
fn written_row_reads_back() {
    let m = message();
    let v = upsert_values(&m, 1_700_000_000);
    assert_eq!(v.uid, 4000000000i64);
    let row = EmailRow {
        uid: Ok(v.uid),
        subject: Ok(v.subject.clone()),
        from_addr: Ok(v.from_addr.clone()),
        to_addrs: Ok(v.to_addrs.clone()),
        body: Ok(v.body.clone()),
        html_body: Ok(v.html_body.clone()),
        date: Ok(v.date.clone()),
        is_read: Ok(1),
        mailbox: Ok(Some("INBOX".into())),
        stored_at: Ok(v.stored_at),
    };
    let e = stored_email_from_row(row).ok().unwrap();
    assert_eq!(e.message.uid, m.uid);
    assert_eq!(e.message.subject, m.subject);
    assert_eq!(e.message.from, m.from);
    assert_eq!(e.message.to, m.to);
    assert_eq!(e.message.date, m.date);
    assert_eq!(e.message.body, m.body);
    assert!(e.is_read);
    assert_eq!(e.mailbox.as_deref(), Some("INBOX"));
    assert_eq!(e.stored_at, 1_700_000_000);
}

#[test]
fn unreadable_columns() {
    let row = EmailRow {
        uid: Ok(-1),
        subject: Err("bad".into()),
        from_addr: Ok(None),
        to_addrs: Err("bad".into()),
        body: Ok(Some("b".into())),
        html_body: Err("bad".into()),
        date: Ok(None),
        is_read: Err("bad".into()),
        mailbox: Err("bad".into()),
        stored_at: Err("bad".into()),
    };
    let e = stored_email_from_row(row).ok().unwrap();
    assert_eq!(e.message.uid, u32::MAX);
    assert_eq!(e.message.subject, None);
    assert!(e.message.to.is_empty());
    assert_eq!(e.message.body.as_deref(), Some("b"));
    assert!(!e.is_read);
    assert_eq!(e.stored_at, 0);
    let bad_uid = EmailRow {
        uid: Err("no column uid".into()),
        subject: Ok(None),
        from_addr: Ok(None),
        to_addrs: Ok("[]".into()),
        body: Ok(None),
        html_body: Ok(None),
        date: Ok(None),
        is_read: Ok(0),
        mailbox: Ok(None),
        stored_at: Ok(0),
    };
    match stored_email_from_row(bad_uid) {
        Err(StoreError::Database(t)) => assert_eq!(t, "no column uid"),
        _ => panic!("unreadable uid accepted"),
    }
}

#[test]
fn index_documents() {
    let d = index_document(&message());
    assert_eq!(d.uid, 4000000000);
    assert_eq!(d.subject, "Hello");
    assert_eq!(d.to, "bob@example.com c \"q\"@x");
    assert_eq!(d.date, "2026-05-08");
    let mut m = message();
    m.subject = None;
    m.to = vec![];
    let d = index_document(&m);
    assert_eq!(d.subject, "");
    assert_eq!(d.to, "");
}

#[test]
fn search_sql() {
    assert_eq!(placeholder_list(0), "");
    assert_eq!(placeholder_list(1), "?");
    assert_eq!(placeholder_list(3), "?, ?, ?");
    assert_eq!(
        select_by_uids_sql(2),
        "SELECT uid, subject, from_addr, to_addrs, body, html_body, date, is_read, mailbox, stored_at FROM emails WHERE uid IN (?, ?)"
    );
    assert_eq!(uids_from_hits(&vec![Some(3), None, Some(4294967297)]), vec![3, 1]);
}

#[test]
fn backend_decisions() {
    assert!(matches!(mark_read_outcome(0), Err(StoreError::NotFound)));
    assert!(mark_read_outcome(1).is_ok());
    assert_eq!(count_from_column(12), 12);
    assert!(is_lock_busy("Failed to acquire Lockfile: LockBusy. \"Some(\\\"x\\\")\""));
    assert!(!is_lock_busy("permission denied"));
    match locked_index_error("/tmp/idx", "LockBusy") {
        StoreError::Search(t) => assert_eq!(
            t,
            "Tantivy index is locked at '/tmp/idx'. Stop all other panorama-mail processes and try again. (LockBusy)"
        ),
        _ => panic!("wrong error"),
    }
    assert_eq!(timestamp_from_secs(5), 5);
    assert!(now_secs() > 1_600_000_000);
}

#[test]
fn store_error_texts() {
    assert_eq!(StoreError::Database("x".into()).message(), "database error: x");
    assert_eq!(StoreError::Search("x".into()).message(), "search index error: x");
    assert_eq!(StoreError::Io("x".into()).message(), "io error: x");
    assert_eq!(StoreError::NotFound.message(), "not found");
    assert_eq!(StoreError::NotSupported("delete").message(), "operation not supported by this store: delete");
}

use panorama_mail::store::sqlite_and_tantivy::{
    index_field_name, search_settings, IndexField, UPSERT_SQL,
};

#[test]
fn search_settings_and_fields() {
    let s = search_settings();
    let names: Vec<&str> = s.fields.into_iter().map(index_field_name).collect();
    assert_eq!(names, vec!["subject", "from_addr", "to_addrs", "body", "date_str"]);
    assert!(s.all_terms);
    assert_eq!(s.limit, 100);
    assert_eq!(index_field_name(IndexField::Uid), "uid");
    assert!(UPSERT_SQL.contains("ON CONFLICT(uid)"));
    assert!(!UPSERT_SQL.contains("stored_at = excluded"));
}
