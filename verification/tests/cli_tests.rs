use panorama_mail::cli::handlers::{
    error_line, mailboxes_output_text, marked_read_text, message_output_text,
    messages_output_text, send_output_text, uid_not_found_text,
};
use panorama_mail::cli::{Cli, Commands};
use panorama_mail::mail::AgentMessage;

fn message(uid: u32, subject: Option<&str>, from: Option<&str>, body: Option<&str>) -> AgentMessage {
    AgentMessage {
        uid,
        subject: subject.map(|s| s.to_string()),
        from: from.map(|s| s.to_string()),
        to: vec![],
        date: None,
        body: body.map(|s| s.to_string()),
        html_body: None,
        attachments: vec![],
    }
}

#[test]
fn send_output() {
    assert_eq!(send_output_text("bob@example.com", false), "Sent to bob@example.com\n");
    assert_eq!(send_output_text("bob@example.com", true), "{\"ok\":true}\n");
}

#[test]
fn message_with_placeholders() {
    let m = message(12, None, None, None);
    assert_eq!(message_output_text(&m), "UID:     12\nFrom:    (unknown)\nSubject: (no subject)\n");
}

#[test]
fn message_body_preview_is_cut_at_300_characters() {
    let long: String = "é".repeat(400);
    let m = message(1, Some("S"), Some("a@b.c"), Some(&long));
    let out = message_output_text(&m);
    let expected = format!("UID:     1\nFrom:    a@b.c\nSubject: S\nBody:\n{}\n", "é".repeat(300));
    assert_eq!(out, expected);
}

#[test]
fn message_lists() {
    assert_eq!(messages_output_text(&vec![]), "No messages\n");
    let ms = vec![message(1, Some("A"), Some("x@y"), None), message(2, Some("B"), None, Some("hi"))];
    assert_eq!(
        messages_output_text(&ms),
        "UID:     1\nFrom:    x@y\nSubject: A\n---\nUID:     2\nFrom:    (unknown)\nSubject: B\nBody:\nhi\n---\n"
    );
}

#[test]
fn other_outputs() {
    assert_eq!(mailboxes_output_text(&vec!["INBOX".into(), "Sent".into()]), "INBOX\nSent\n");
    assert_eq!(mailboxes_output_text(&vec![]), "");
    assert_eq!(uid_not_found_text(77), "UID 77 not found");
    assert_eq!(marked_read_text(77), "UID 77 marked as read");
    assert_eq!(error_line("boom"), "Error: boom");
}

#[test]
fn commands_hold_their_arguments() {
    let cli = Cli { command: Commands::Get { uid: 3, json: true } };
    match cli.command {
        Commands::Get { uid, json } => assert!(uid == 3 && json),
        _ => unreachable!(),
    }
}
