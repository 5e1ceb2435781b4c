use vstd::prelude::*;

verus! {

/// Connection settings for the IMAP and SMTP sides of the bridge.
#[derive(Clone, Debug)]
pub struct MailConfig {
    pub imap_host: String,
    pub imap_port: u16,
    pub smtp_host: String,
    pub smtp_port: u16,
    pub username: String,
    pub password: String,
    pub mailbox: String,
}

/// A message as handed to agents: the IMAP UID and the fields read from its
/// RFC 822 source.
#[derive(Clone, Debug)]
pub struct AgentMessage {
    pub uid: u32,
    pub subject: Option<String>,
    pub from: Option<String>,
    pub to: Vec<String>,
    pub date: Option<String>,
    pub body: Option<String>,
    pub html_body: Option<String>,
    pub attachments: Vec<String>,
}

} // verus!
