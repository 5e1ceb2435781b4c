//! The computing part of sending: checking the two addresses and building
//! the message that the SMTP transport is then given.
use vstd::prelude::*;

use super::error::MailError;
use super::types::MailConfig;
use crate::text::to_owned_string;

verus! {

#[verifier::external_type_specification]
#[verifier::external_body]
pub struct ExMailbox(lettre::message::Mailbox);

#[verifier::external_type_specification]
#[verifier::external_body]
pub struct ExMessage(lettre::Message);

/// What `<lettre::message::Mailbox as FromStr>::from_str` makes of a text:
/// `Ok` where it reads a mailbox, else the text of its `AddressError`.
pub uninterp spec fn mailbox_parse(text: Seq<char>) -> Result<(), Seq<char>>;

/// Reads a mailbox (`Name <user@domain>` or `user@domain`) with lettre's
/// `FromStr` for `Mailbox`. The mailbox itself is opaque here; the contract
/// ties success, and the error's text, to the input.
#[verifier::external_body]
fn parse_mailbox(text: &str) -> (r: Result<lettre::message::Mailbox, String>)
    ensures
        match r {
            Ok(_) => mailbox_parse(text@) is Ok,
            Err(e) => mailbox_parse(text@) == Err::<(), Seq<char>>(e@),
        },
{
    text.parse::<lettre::message::Mailbox>().map_err(|e| e.to_string())
}

/// A plain-text message ready to be handed to the SMTP transport: the sender
/// and recipient mailboxes as written, the subject and the body.
pub struct OutgoingMail {
    pub from: String,
    pub to: String,
    pub subject: String,
    pub body: String,
}

/// Builds the lettre message for `mail` with lettre's `MessageBuilder`: the
/// sender and recipient texts are read back into mailboxes with `FromStr`
/// (the same reading as `parse_mailbox`), then set as the one From and the one
/// To, with `mail.subject` as the Subject and `mail.body` as the plain-text
/// body. `MessageBuilder::build` fails only without a From, with more than one
/// From and no Sender, or with no recipient, none of which can happen here, so
/// the result is `Ok` whenever both texts read as mailboxes. The content of
/// the `lettre::Message` is opaque here and is not stated; it also carries a
/// Date header that lettre takes from the clock.
#[verifier::external_body]
fn build_message(mail: &OutgoingMail) -> (r: Result<lettre::Message, String>)
    ensures
        (mailbox_parse(mail.from@) is Ok && mailbox_parse(mail.to@) is Ok) ==> r is Ok,
{
    let from: lettre::message::Mailbox = mail.from.parse().map_err(
        |e: lettre::address::AddressError| e.to_string(),
    )?;
    let to: lettre::message::Mailbox = mail.to.parse().map_err(
        |e: lettre::address::AddressError| e.to_string(),
    )?;
    lettre::Message::builder().from(from).to(to).subject(mail.subject.as_str()).body(
        mail.body.clone(),
    ).map_err(|e| e.to_string())
}

/// The error for a sender address that does not read as a mailbox.
pub open spec fn invalid_from_text(detail: Seq<char>) -> Seq<char> {
    "Invalid from address: "@ + detail
}

/// The error for a recipient address that does not read as a mailbox.
pub open spec fn invalid_to_text(detail: Seq<char>) -> Seq<char> {
    "Invalid to address: "@ + detail
}

/// The message that `send` hands to the SMTP transport: from the configured
/// user name to `to`, with `subject` and `body`. Fails with a parse error
/// when the user name, or else `to`, does not read as a mailbox.
pub fn prepare_message(config: &MailConfig, to: &str, subject: &str, body: &str) -> (r: Result<
    OutgoingMail,
    MailError,
>)
    ensures
        match (mailbox_parse(config.username@), mailbox_parse(to@)) {
            (Err(e), _) => r matches Err(MailError::Parse(t)) && t@ == invalid_from_text(e),
            (Ok(_), Err(e)) => r matches Err(MailError::Parse(t)) && t@ == invalid_to_text(e),
            (Ok(_), Ok(_)) => r matches Ok(m) && {
                &&& m.from@ == config.username@
                &&& m.to@ == to@
                &&& m.subject@ == subject@
                &&& m.body@ == body@
            },
        },
{
    match parse_mailbox(config.username.as_str()) {
        Ok(_) => {},
        Err(e) => {
            let mut t = to_owned_string("Invalid from address: ");
            t.append(e.as_str());
            return Err(MailError::Parse(t));
        },
    }
    match parse_mailbox(to) {
        Ok(_) => {},
        Err(e) => {
            let mut t = to_owned_string("Invalid to address: ");
            t.append(e.as_str());
            return Err(MailError::Parse(t));
        },
    }
    Ok(OutgoingMail {
        from: config.username.clone(),
        to: to_owned_string(to),
        subject: to_owned_string(subject),
        body: to_owned_string(body),
    })
}

/// The lettre message for `mail`, as `build_message` makes it. It is built
/// whenever both of its addresses read as mailboxes, as they do for every
/// message `prepare_message` returns; otherwise the error is a parse error.
pub fn compose_message(mail: &OutgoingMail) -> (r: Result<lettre::Message, MailError>)
    ensures
        (mailbox_parse(mail.from@) is Ok && mailbox_parse(mail.to@) is Ok) ==> r is Ok,
        r is Err ==> r matches Err(MailError::Parse(_)),
{
    match build_message(mail) {
        Ok(m) => Ok(m),
        Err(e) => {
            let mut t = to_owned_string("Failed to build message: ");
            t.append(e.as_str());
            Err(MailError::Parse(t))
        },
    }
}

} // verus!
