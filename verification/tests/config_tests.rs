use panorama_mail::config::{AppConfig, EnvValues};

fn values(username: Option<&str>, password: Option<&str>) -> EnvValues {
    EnvValues {
        imap_host: None,
        imap_port: None,
        smtp_host: None,
        smtp_port: None,
        username: username.map(|s| s.to_string()),
        password: password.map(|s| s.to_string()),
        mailbox: None,
        http_port: None,
    }
}

#[test]
fn defaults_apply_when_unset() {
    let c = AppConfig::from_values(values(Some("me@example.com"), Some("pw"))).unwrap();
    assert_eq!(c.mail.imap_host, "127.0.0.1");
    assert_eq!(c.mail.imap_port, 1143);
    assert_eq!(c.mail.smtp_host, "127.0.0.1");
    assert_eq!(c.mail.smtp_port, 1025);
    assert_eq!(c.mail.username, "me@example.com");
    assert_eq!(c.mail.password, "pw");
    assert_eq!(c.mail.mailbox, "INBOX");
    assert_eq!(c.http_port, 8420);
}

#[test]
fn given_values_are_used() {
    let mut v = values(Some("u"), Some("p"));
    v.imap_host = Some("mail.local".to_string());
    v.imap_port = Some("993".to_string());
    v.smtp_host = Some("smtp.local".to_string());
    v.smtp_port = Some("+587".to_string());
    v.mailbox = Some("Archive".to_string());
    v.http_port = Some("3500".to_string());
    let c = AppConfig::from_values(v).unwrap();
    assert_eq!(c.mail.imap_host, "mail.local");
    assert_eq!(c.mail.imap_port, 993);
    assert_eq!(c.mail.smtp_host, "smtp.local");
    assert_eq!(c.mail.smtp_port, 587);
    assert_eq!(c.mail.mailbox, "Archive");
    assert_eq!(c.http_port, 3500);
}

#[test]
fn unreadable_ports_fall_back_to_defaults() {
    let mut v = values(Some("u"), Some("p"));
    v.imap_port = Some("70000".to_string());
    v.smtp_port = Some("abc".to_string());
    v.http_port = Some(" 80".to_string());
    let c = AppConfig::from_values(v).unwrap();
    assert_eq!(c.mail.imap_port, 1143);
    assert_eq!(c.mail.smtp_port, 1025);
    assert_eq!(c.http_port, 8420);
}

#[test]
fn username_is_required() {
    let e = AppConfig::from_values(values(None, Some("p"))).err().unwrap();
    assert_eq!(e, "PROTON_USERNAME is required");
    let e = AppConfig::from_values(values(None, None)).err().unwrap();
    assert_eq!(e, "PROTON_USERNAME is required");
}

#[test]
fn password_is_required() {
    let e = AppConfig::from_values(values(Some("u"), None)).err().unwrap();
    assert_eq!(e, "PROTON_PASSWORD is required");
}
