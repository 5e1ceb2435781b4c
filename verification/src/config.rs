//! Application settings, read from the values of the process environment.
use vstd::prelude::*;

use crate::mail::MailConfig;
use crate::text::{parse_u16, parse_u16_spec, to_owned_string};

verus! {

/// Settings of the whole program.
pub struct AppConfig {
    pub mail: MailConfig,
    pub http_port: u16,
}

/// The raw values of the variables the settings are read from; `None` where
/// a variable is unset (or not valid Unicode).
pub struct EnvValues {
    pub imap_host: Option<String>,
    pub imap_port: Option<String>,
    pub smtp_host: Option<String>,
    pub smtp_port: Option<String>,
    pub username: Option<String>,
    pub password: Option<String>,
    pub mailbox: Option<String>,
    pub http_port: Option<String>,
}

/// A text setting: its value, or the default when unset.
pub open spec fn text_or(v: Option<String>, default: Seq<char>) -> Seq<char> {
    match v {
        Some(s) => s@,
        None => default,
    }
}

/// A port setting: its value when it reads as a `u16`, or the default.
pub open spec fn port_or(v: Option<String>, default: u16) -> u16 {
    match v {
        Some(s) => match parse_u16_spec(s@) {
            Some(p) => p,
            None => default,
        },
        None => default,
    }
}

fn text_setting(v: Option<String>, default: &str) -> (r: String)
    ensures
        r@ == text_or(v, default@),
{
    match v {
        Some(s) => s,
        None => to_owned_string(default),
    }
}

fn port_setting(v: &Option<String>, default: u16) -> (r: u16)
    ensures
        r == port_or(*v, default),
{
    match v {
        Some(s) => match parse_u16(s.as_str()) {
            Some(p) => p,
            None => default,
        },
        None => default,
    }
}

impl AppConfig {
    /// Builds the settings from the variables' values. Hosts default to
    /// `127.0.0.1`, the IMAP port to 1143, the SMTP port to 1025, the mailbox
    /// to `INBOX` and the HTTP port to 8420; a port that does not read as a
    /// number in 0..=65535 takes its default too. The user name and the
    /// password are required: without the user name the error is
    /// `PROTON_USERNAME is required`, else without the password it is
    /// `PROTON_PASSWORD is required`.
    pub fn from_values(vars: EnvValues) -> (r: Result<AppConfig, String>)
        ensures
            vars.username is None ==> (r matches Err(e) && e@ == "PROTON_USERNAME is required"@),
            vars.username is Some && vars.password is None ==> (r matches Err(e) && e@
                == "PROTON_PASSWORD is required"@),
            vars.username is Some && vars.password is Some ==> (r matches Ok(c) && {
                &&& c.mail.imap_host@ == text_or(vars.imap_host, "127.0.0.1"@)
                &&& c.mail.imap_port == port_or(vars.imap_port, 1143)
                &&& c.mail.smtp_host@ == text_or(vars.smtp_host, "127.0.0.1"@)
                &&& c.mail.smtp_port == port_or(vars.smtp_port, 1025)
                &&& c.mail.username@ == vars.username->0@
                &&& c.mail.password@ == vars.password->0@
                &&& c.mail.mailbox@ == text_or(vars.mailbox, "INBOX"@)
                &&& c.http_port == port_or(vars.http_port, 8420)
            }),
    {
        let imap_port = port_setting(&vars.imap_port, 1143);
        let smtp_port = port_setting(&vars.smtp_port, 1025);
        let http_port = port_setting(&vars.http_port, 8420);
        let imap_host = text_setting(vars.imap_host, "127.0.0.1");
        let smtp_host = text_setting(vars.smtp_host, "127.0.0.1");
        let username = match vars.username {
            Some(u) => u,
            None => {
                return Err(to_owned_string("PROTON_USERNAME is required"));
            },
        };
        let password = match vars.password {
            Some(p) => p,
            None => {
                return Err(to_owned_string("PROTON_PASSWORD is required"));
            },
        };
        let mailbox = text_setting(vars.mailbox, "INBOX");
        Ok(AppConfig {
            mail: MailConfig {
                imap_host,
                imap_port,
                smtp_host,
                smtp_port,
                username,
                password,
                mailbox,
            },
            http_port,
        })
    }
}

} // verus!
