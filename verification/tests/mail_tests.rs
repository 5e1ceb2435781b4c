use std::sync::Arc;

use panorama_mail::mail::imap::{
    message_from_first_fetch, messages_from_fetches, parse_message, search_criteria_text, uid_set,
    uid_text, FetchedMessage,
};
use panorama_mail::mail::smtp::{compose_message, prepare_message, OutgoingMail};
use panorama_mail::mail::{MailConfig, MailError, PanoramaMail};

const RAW: &str = "From: Ann <ann@example.com>\r\nTo: bob@example.com, Team: cy@example.com, dee@example.com;\r\nSubject: Report\r\nContent-Type: text/plain; charset=utf-8\r\n\r\nSee the numbers.\r\n";

fn config(username: &str) -> MailConfig {
    MailConfig {
        imap_host: "127.0.0.1".to_string(),
        imap_port: 1143,
        smtp_host: "127.0.0.1".to_string(),
        smtp_port: 1025,
        username: username.to_string(),
        password: "pw".to_string(),
        mailbox: "INBOX".to_string(),
    }
}

#[test]
fn parses_a_message() {
    let m = parse_message(RAW.as_bytes(), 42).unwrap();
    assert_eq!(m.uid, 42);
    assert_eq!(m.subject.as_deref(), Some("Report"));
    assert_eq!(m.from.as_deref(), Some("ann@example.com"));
    assert_eq!(m.to, vec!["bob@example.com", "cy@example.com", "dee@example.com"]);
    assert_eq!(m.body.as_deref().map(|b| b.trim_end()), Some("See the numbers."));
    assert!(m.date.is_none());
    assert!(m.attachments.is_empty());
}

#[test]
fn message_without_headers_of_interest() {
    let m = parse_message(b"X-Other: 1\r\n\r\nbody\r\n", 1).unwrap();
    assert_eq!(m.subject, None);
    assert_eq!(m.from, None);
    assert!(m.to.is_empty());
}

#[test]
fn fetch_results_keep_order_and_skip_bodiless_items() {
    let fetches = vec![
        FetchedMessage { uid: Some(7), body: Some(RAW.as_bytes().to_vec()) },
        FetchedMessage { uid: Some(8), body: None },
        FetchedMessage { uid: None, body: Some(RAW.as_bytes().to_vec()) },
    ];
    let ms = messages_from_fetches(&fetches).unwrap();
    assert_eq!(ms.len(), 2);
    assert_eq!(ms[0].uid, 7);
    assert_eq!(ms[1].uid, 0);
    assert!(messages_from_fetches(&vec![]).unwrap().is_empty());
}

#[test]
fn first_fetch_only() {
    assert!(message_from_first_fetch(&vec![], 5).unwrap().is_none());
    let none_body = vec![FetchedMessage { uid: Some(5), body: None }];
    assert!(message_from_first_fetch(&none_body, 5).unwrap().is_none());
    let one = vec![FetchedMessage { uid: Some(9), body: Some(RAW.as_bytes().to_vec()) }];
    let m = message_from_first_fetch(&one, 5).unwrap().unwrap();
    assert_eq!(m.uid, 5);
}

#[test]
fn uid_sets_and_criteria() {
    assert_eq!(uid_set(&vec![]), None);
    assert_eq!(uid_set(&vec![3]).as_deref(), Some("3"));
    assert_eq!(uid_set(&vec![10, 2, 300]).as_deref(), Some("10,2,300"));
    assert_eq!(uid_text(4096), "4096");
    assert_eq!(search_criteria_text("bob"), "OR SUBJECT \"bob\" FROM \"bob\"");
}

#[test]
fn invalid_sender_is_refused() {
    match prepare_message(&config("not an address"), "bob@example.com", "s", "b") {
        Err(MailError::Parse(t)) => assert!(t.starts_with("Invalid from address: "), "{t}"),
        Err(e) => panic!("unexpected error {}", e.message()),
        Ok(_) => panic!("accepted an invalid sender"),
    }
}

#[test]
fn invalid_recipient_is_refused() {
    match prepare_message(&config("me@example.com"), "bob at example", "s", "b") {
        Err(MailError::Parse(t)) => assert_eq!(t, "Invalid to address: Invalid input"),
        Err(e) => panic!("unexpected error {}", e.message()),
        Ok(_) => panic!("accepted an invalid recipient"),
    }
}

#[test]
fn valid_addresses_build_a_message() {
    let m = prepare_message(&config("me@example.com"), "Bob <bob@example.com>", "Hi", "Body")
        .ok()
        .expect("message");
    assert_eq!(m.from, "me@example.com");
    assert_eq!(m.to, "Bob <bob@example.com>");
    assert_eq!(m.subject, "Hi");
    assert_eq!(m.body, "Body");
    let built = compose_message(&m).ok().expect("built");
    let text = String::from_utf8(built.formatted()).unwrap();
    assert!(text.contains("From: me@example.com"));
    assert!(text.contains("Subject: Hi"));
    assert!(text.trim_end().ends_with("Body"));
    assert!(text.contains("To: Bob <bob@example.com>"));
}

#[test]
fn unreadable_addresses_are_not_composed() {
    let m = OutgoingMail {
        from: "nobody".to_string(),
        to: "bob@example.com".to_string(),
        subject: "s".to_string(),
        body: "b".to_string(),
    };
    match compose_message(&m) {
        Err(MailError::Parse(t)) => assert!(t.starts_with("Failed to build message: "), "{t}"),
        _ => panic!("composed a message from an unreadable sender"),
    }
}

#[test]
fn error_texts() {
    assert_eq!(MailError::Imap("x".into()).message(), "IMAP error: x");
    assert_eq!(MailError::Smtp("x".into()).message(), "SMTP error: x");
    assert_eq!(MailError::Io("x".into()).message(), "IO error: x");
    assert_eq!(MailError::Utf8("x".into()).message(), "UTF-8 error: x");
    assert_eq!(MailError::Parse("x".into()).message(), "Parse error: x");
}

#[test]
fn client_store_attachment() {
    let mail: PanoramaMail<str> = PanoramaMail::new(config("me@example.com"));
    assert!(mail.store().is_none());
    assert_eq!(mail.config().username, "me@example.com");
    let store: Arc<str> = Arc::from("backend");
    let mail = mail.with_store(store);
    assert_eq!(mail.store().as_deref(), Some("backend"));
    assert_eq!(mail.config.mailbox, "INBOX");
}

use panorama_mail::mail::imap::{ALL_MAILBOXES, FETCH_ITEMS, MARK_SEEN, UNSEEN_CRITERIA};
use panorama_mail::mail::{MailOperation, StoreWrite};

#[test]
fn write_through_decisions() {
    let bare: PanoramaMail<str> = PanoramaMail::new(config("me@example.com"));
    assert!(matches!(bare.store_write(MailOperation::FetchUnread), StoreWrite::Nothing));
    assert!(matches!(bare.store_write(MailOperation::MarkRead(3)), StoreWrite::Nothing));
    let cached = bare.with_store(Arc::from("backend"));
    assert!(matches!(cached.store_write(MailOperation::FetchUnread), StoreWrite::UpsertEach));
    assert!(matches!(cached.store_write(MailOperation::Search), StoreWrite::UpsertEach));
    assert!(matches!(cached.store_write(MailOperation::GetByUid), StoreWrite::UpsertFound));
    assert!(matches!(cached.store_write(MailOperation::MarkRead(3)), StoreWrite::MarkRead(3)));
    assert!(matches!(cached.store_write(MailOperation::Send), StoreWrite::Nothing));
    assert!(matches!(cached.store_write(MailOperation::ListMailboxes), StoreWrite::Nothing));
}

#[test]
fn imap_command_texts() {
    assert_eq!(UNSEEN_CRITERIA, "UNSEEN");
    assert_eq!(FETCH_ITEMS, "RFC822");
    assert_eq!(MARK_SEEN, "+FLAGS (\\Seen)");
    assert_eq!(ALL_MAILBOXES, "*");
}
