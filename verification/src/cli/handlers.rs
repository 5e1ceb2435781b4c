//! The text each command prints when JSON output is off (and the fixed JSON
//! reply of `send`). Every function returns the whole output, newlines
//! included.
use vstd::prelude::*;

use crate::mail::AgentMessage;
use crate::mail::imap::opt_text;
use crate::text::{decimal, prefix_chars, prefix_string, push_decimal, string_views, to_owned_string};

verus! {

/// The number of body characters shown in a message preview.
pub const PREVIEW_CHARS: usize = 300;

/// What `send` prints on success.
pub open spec fn send_output(to: Seq<char>, json: bool) -> Seq<char> {
    if json {
        "{\"ok\":true}\n"@
    } else {
        "Sent to "@ + to + "\n"@
    }
}

/// What `send` prints on success: a JSON object `{"ok":true}`, or a line
/// naming the recipient.
pub fn send_output_text(to: &str, json: bool) -> (r: String)
    ensures
        r@ == send_output(to@, json),
        json ==> r@ == "{\"ok\":true}\n"@,
        !json ==> r@ == "Sent to "@ + to@ + "\n"@,
{
    if json {
        to_owned_string("{\"ok\":true}\n")
    } else {
        let mut out = to_owned_string("Sent to ");
        out.append(to);
        out.append("\n");
        out
    }
}

/// A text, or the placeholder when it is absent.
pub open spec fn or_placeholder(t: Option<Seq<char>>, placeholder: Seq<char>) -> Seq<char> {
    match t {
        Some(s) => s,
        None => placeholder,
    }
}

/// How a message is shown: its UID, sender, subject and, if it has a text
/// body, the first 300 characters of it.
pub open spec fn message_output(m: AgentMessage) -> Seq<char> {
    let head = "UID:     "@ + decimal(m.uid as nat) + "\n"@ + "From:    "@ + or_placeholder(
        opt_text(m.from),
        "(unknown)"@,
    ) + "\n"@ + "Subject: "@ + or_placeholder(opt_text(m.subject), "(no subject)"@) + "\n"@;
    match m.body {
        Some(b) => head + "Body:\n"@ + prefix_chars(b@, PREVIEW_CHARS as nat) + "\n"@,
        None => head,
    }
}

fn append_or(out: &mut String, t: &Option<String>, placeholder: &str)
    ensures
        final(out)@ == old(out)@ + or_placeholder(opt_text(*t), placeholder@),
{
    match t {
        Some(s) => out.append(s.as_str()),
        None => out.append(placeholder),
    }
}

/// How a message is shown: its UID, sender (`(unknown)` if none), subject
/// (`(no subject)` if none) and, if it has a text body, its first 300
/// characters.
pub fn message_output_text(m: &AgentMessage) -> (r: String)
    ensures
        r@ == message_output(*m),
        r@ == "UID:     "@ + decimal(m.uid as nat) + "\n"@ + "From:    "@ + match m.from {
            Some(f) => f@,
            None => "(unknown)"@,
        } + "\n"@ + "Subject: "@ + match m.subject {
            Some(t) => t@,
            None => "(no subject)"@,
        } + "\n"@ + match m.body {
            Some(b) => "Body:\n"@ + prefix_chars(b@, 300) + "\n"@,
            None => Seq::<char>::empty(),
        },
{
    let mut out = to_owned_string("UID:     ");
    push_decimal(&mut out, m.uid as u64);
    out.append("\n");
    out.append("From:    ");
    append_or(&mut out, &m.from, "(unknown)");
    out.append("\n");
    out.append("Subject: ");
    append_or(&mut out, &m.subject, "(no subject)");
    out.append("\n");
    match &m.body {
        Some(b) => {
            out.append("Body:\n");
            let preview = prefix_string(b.as_str(), PREVIEW_CHARS);
            out.append(preview.as_str());
            out.append("\n");
        },
        None => {},
    }
    out
}

/// How a list of messages is shown: `No messages`, or each message followed
/// by a `---` line.
pub open spec fn messages_output(ms: Seq<AgentMessage>) -> Seq<char>
    decreases ms.len(),
{
    if ms.len() == 0 {
        "No messages\n"@
    } else {
        messages_body(ms)
    }
}

/// Each message followed by a `---` line.
pub open spec fn messages_body(ms: Seq<AgentMessage>) -> Seq<char>
    decreases ms.len(),
{
    if ms.len() == 0 {
        Seq::empty()
    } else {
        messages_body(ms.drop_last()) + message_output(ms.last()) + "---\n"@
    }
}

/// How a list of messages is shown: `No messages`, or each message followed
/// by a `---` line.
pub fn messages_output_text(ms: &Vec<AgentMessage>) -> (r: String)
    ensures
        r@ == messages_output(ms@),
        ms@.len() == 0 ==> r@ == "No messages\n"@,
        ms@.len() > 0 ==> r@ == ms@.map_values(
            |m: AgentMessage| message_output(m) + "---\n"@,
        ).flatten(),
{
    if ms.len() == 0 {
        return to_owned_string("No messages\n");
    }
    let mut out = String::new();
    let mut i: usize = 0;
    while i < ms.len()
        invariant
            i <= ms@.len(),
            out@ == messages_body(ms@.take(i as int)),
        decreases ms.len() - i,
    {
        proof {
            assert(ms@.take(i + 1).drop_last() =~= ms@.take(i as int));
        }
        let t = message_output_text(&ms[i]);
        out.append(t.as_str());
        out.append("---\n");
        i = i + 1;
    }
    assert(ms@.take(ms@.len() as int) =~= ms@);
    proof {
        lemma_messages_body_concatenates(ms@);
    }
    out
}

/// The message listing is every message's text followed by a `---` line, in
/// the order given.
pub proof fn lemma_messages_body_concatenates(ms: Seq<AgentMessage>)
    ensures
        messages_body(ms) == ms.map_values(|m: AgentMessage| message_output(m) + "---\n"@).flatten(),
    decreases ms.len(),
{
    let f = |m: AgentMessage| message_output(m) + "---\n"@;
    if ms.len() == 0 {
        assert(ms.map_values(f) =~= Seq::<Seq<char>>::empty());
    } else {
        let init = ms.drop_last();
        lemma_messages_body_concatenates(init);
        assert(ms.map_values(f) =~= init.map_values(f).push(message_output(ms.last()) + "---\n"@));
        init.map_values(f).lemma_flatten_push(message_output(ms.last()) + "---\n"@);
        assert(messages_body(ms) =~= init.map_values(f).flatten() + (message_output(ms.last()) + "---\n"@));
    }
}

/// How the mailbox list is shown: one name per line.
pub open spec fn lines_output(names: Seq<Seq<char>>) -> Seq<char>
    decreases names.len(),
{
    if names.len() == 0 {
        Seq::empty()
    } else {
        lines_output(names.drop_last()) + names.last() + "\n"@
    }
}

/// How the mailbox list is shown: one name per line.
pub fn mailboxes_output_text(names: &Vec<String>) -> (r: String)
    ensures
        r@ == lines_output(string_views(names@)),
        r@ == string_views(names@).map_values(|n: Seq<char>| n + "\n"@).flatten(),
{
    let ghost views = string_views(names@);
    let mut out = String::new();
    let mut i: usize = 0;
    while i < names.len()
        invariant
            i <= names@.len(),
            views == string_views(names@),
            out@ == lines_output(views.take(i as int)),
        decreases names.len() - i,
    {
        proof {
            assert(views.take(i + 1).drop_last() =~= views.take(i as int));
        }
        out.append(names[i].as_str());
        out.append("\n");
        i = i + 1;
    }
    assert(views.take(names@.len() as int) =~= views);
    proof {
        lemma_lines_output_concatenates(views);
    }
    out
}

/// The mailbox listing is every name followed by a newline, in the order
/// given: for names `n0 .. nk` it is `n0 + "\n" + .. + nk + "\n"`.
pub proof fn lemma_lines_output_concatenates(names: Seq<Seq<char>>)
    ensures
        lines_output(names) == names.map_values(|n: Seq<char>| n + "\n"@).flatten(),
    decreases names.len(),
{
    let f = |n: Seq<char>| n + "\n"@;
    if names.len() == 0 {
        assert(names.map_values(f) =~= Seq::<Seq<char>>::empty());
    } else {
        let init = names.drop_last();
        lemma_lines_output_concatenates(init);
        assert(names.map_values(f) =~= init.map_values(f).push(names.last() + "\n"@));
        init.map_values(f).lemma_flatten_push(names.last() + "\n"@);
        assert(lines_output(names) =~= init.map_values(f).flatten() + (names.last() + "\n"@));
    }
}

/// The error shown by `get` for a UID the server does not have.
pub open spec fn uid_not_found(uid: u32) -> Seq<char> {
    "UID "@ + decimal(uid as nat) + " not found"@
}

/// The error shown by `get` for a UID the server does not have.
pub fn uid_not_found_text(uid: u32) -> (r: String)
    ensures
        r@ == uid_not_found(uid),
        r@ == "UID "@ + decimal(uid as nat) + " not found"@,
{
    let mut out = to_owned_string("UID ");
    push_decimal(&mut out, uid as u64);
    out.append(" not found");
    out
}

/// What `read` prints on success.
pub open spec fn marked_read(uid: u32) -> Seq<char> {
    "UID "@ + decimal(uid as nat) + " marked as read"@
}

/// What `read` prints on success (without the newline).
pub fn marked_read_text(uid: u32) -> (r: String)
    ensures
        r@ == marked_read(uid),
        r@ == "UID "@ + decimal(uid as nat) + " marked as read"@,
{
    let mut out = to_owned_string("UID ");
    push_decimal(&mut out, uid as u64);
    out.append(" marked as read");
    out
}

/// The line written to standard error before the program stops with an error.
pub fn error_line(message: &str) -> (r: String)
    ensures
        r@ == "Error: "@ + message@,
{
    let mut out = to_owned_string("Error: ");
    out.append(message);
    out
}

} // verus!
