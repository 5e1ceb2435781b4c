//! The computing part of the IMAP operations: the UID set and search text
//! sent to the server, and the messages read from what it returns.
use vstd::prelude::*;

use super::error::MailError;
use super::types::AgentMessage;
use crate::text::{decimal, decimal_string, join, push_decimal, to_owned_string};

verus! {

/// The fields of a parsed RFC 822 message that agents are given, as plain
/// values. `from` and `to` hold, when the header is present, the address of
/// each mailbox it names, in order, group members included.
pub struct ParsedMail {
    pub subject: Option<String>,
    pub from: Option<Vec<Option<String>>>,
    pub to: Option<Vec<Option<String>>>,
    pub text_body: Option<String>,
    pub html_body: Option<String>,
}

pub type AddressListView = Seq<Option<Seq<char>>>;

/// Subject, From addresses, To addresses, first text body, first HTML body.
pub type ParsedMailView = (
    Option<Seq<char>>,
    Option<AddressListView>,
    Option<AddressListView>,
    Option<Seq<char>>,
    Option<Seq<char>>,
);

pub open spec fn opt_text(o: Option<String>) -> Option<Seq<char>> {
    match o {
        Some(s) => Some(s@),
        None => None,
    }
}

pub open spec fn address_list_view(v: Seq<Option<String>>) -> AddressListView {
    v.map_values(|a: Option<String>| opt_text(a))
}

pub open spec fn opt_address_list(o: Option<Vec<Option<String>>>) -> Option<AddressListView> {
    match o {
        Some(v) => Some(address_list_view(v@)),
        None => None,
    }
}

impl View for ParsedMail {
    type V = ParsedMailView;

    open spec fn view(&self) -> ParsedMailView {
        (
            opt_text(self.subject),
            opt_address_list(self.from),
            opt_address_list(self.to),
            opt_text(self.text_body),
            opt_text(self.html_body),
        )
    }
}

/// What `mail_parser::MessageParser::parse` makes of a raw message, read out
/// as in `ParsedMail`; `None` where the parser rejects the input.
pub uninterp spec fn rfc822_fields(raw: Seq<u8>) -> Option<ParsedMailView>;

/// Parses a raw RFC 822 message with `mail_parser::MessageParser::default().parse`
/// and reads out its subject, the mailbox addresses of From and To (through
/// `Address::iter`, which lists group members too), and the first text and
/// HTML bodies (`body_text(0)`, `body_html(0)`). Nothing is claimed of these
/// values beyond their being what the parser gives for these bytes.
#[verifier::external_body]
fn read_rfc822(raw: &[u8]) -> (r: Option<ParsedMail>)
    ensures
        match r {
            Some(p) => rfc822_fields(raw@) == Some(p@),
            None => rfc822_fields(raw@) is None,
        },
{
    let parsed = mail_parser::MessageParser::default().parse(raw)?;
    Some(ParsedMail {
        subject: parsed.subject().map(|s| s.to_string()),
        from: parsed.from().map(|l| l.iter().map(|a| a.address().map(|s| s.to_string())).collect()),
        to: parsed.to().map(|l| l.iter().map(|a| a.address().map(|s| s.to_string())).collect()),
        text_body: parsed.body_text(0).map(|s| s.into_owned()),
        html_body: parsed.body_html(0).map(|s| s.into_owned()),
    })
}

/// The address of the first mailbox of a From header, if there is one.
pub open spec fn first_address(from: Option<AddressListView>) -> Option<Seq<char>> {
    match from {
        Some(l) => if l.len() > 0 { l[0] } else { None },
        None => None,
    }
}

/// The addresses of a list, in order, skipping mailboxes without one.
pub open spec fn present_addresses(l: AddressListView) -> Seq<Seq<char>>
    decreases l.len(),
{
    if l.len() == 0 {
        Seq::empty()
    } else {
        match l.last() {
            Some(a) => present_addresses(l.drop_last()).push(a),
            None => present_addresses(l.drop_last()),
        }
    }
}

/// The recipients read from a To header: none when it is absent.
pub open spec fn recipients(to: Option<AddressListView>) -> Seq<Seq<char>> {
    match to {
        Some(l) => present_addresses(l),
        None => Seq::empty(),
    }
}

/// `m` is the message with UID `uid` whose parsed fields are `f`.
pub open spec fn message_from_fields(m: AgentMessage, uid: u32, f: ParsedMailView) -> bool {
    &&& m.uid == uid
    &&& opt_text(m.subject) == f.0
    &&& opt_text(m.from) == first_address(f.1)
    &&& m.to@.map_values(|s: String| s@) == recipients(f.2)
    &&& m.date is None
    &&& opt_text(m.body) == f.3
    &&& opt_text(m.html_body) == f.4
    &&& m.attachments@.len() == 0
}

/// The addresses kept from a list are those of its mailboxes that have one,
/// in order: the list with the mailboxes without an address dropped.
pub proof fn lemma_present_addresses_drop_absent(l: AddressListView)
    ensures
        present_addresses(l) == l.filter_map(|a: Option<Seq<char>>| a),
    decreases l.len(),
{
    if l.len() > 0 {
        lemma_present_addresses_drop_absent(l.drop_last());
        match l.last() {
            Some(a) => {
                assert(present_addresses(l) == present_addresses(l.drop_last()).push(a));
                assert(present_addresses(l.drop_last()).push(a) =~= present_addresses(l.drop_last())
                    + seq![a]);
            },
            None => {},
        }
    }
}

/// A message read from parsed fields carries each of them: the UID given, the
/// parser's subject, first text body and first HTML body, the address of the
/// first From mailbox (none when From is absent, empty, or its first mailbox
/// has no address), the addresses of the To mailboxes that have one, in order,
/// and no date or attachments.
pub proof fn lemma_message_from_fields_law(uid: u32, f: ParsedMailView)
    ensures
        forall|m: AgentMessage|
            #[trigger] message_from_fields(m, uid, f) ==> {
                &&& m.uid == uid
                &&& opt_text(m.subject) == f.0
                &&& opt_text(m.body) == f.3
                &&& opt_text(m.html_body) == f.4
                &&& opt_text(m.from) == match f.1 {
                    Some(l) => if l.len() > 0 { l[0] } else { None },
                    None => None,
                }
                &&& m.to@.map_values(|s: String| s@) == match f.2 {
                    Some(l) => l.filter_map(|a: Option<Seq<char>>| a),
                    None => Seq::<Seq<char>>::empty(),
                }
                &&& m.date is None
                &&& m.attachments@.len() == 0
            },
{
    match f.2 {
        Some(l) => lemma_present_addresses_drop_absent(l),
        None => {},
    }
}

/// The text of the error for a message the parser rejects.
pub open spec fn unparsable_text() -> Seq<char> {
    "Failed to parse RFC822 message"@
}

fn first_present(l: &Vec<Option<String>>) -> (r: Option<String>)
    ensures
        opt_text(r) == first_address(Some(address_list_view(l@))),
{
    if l.len() == 0 {
        None
    } else {
        l[0].clone()
    }
}

fn present_list(l: &Vec<Option<String>>) -> (r: Vec<String>)
    ensures
        r@.map_values(|s: String| s@) == present_addresses(address_list_view(l@)),
{
    let mut out: Vec<String> = Vec::new();
    let mut i: usize = 0;
    while i < l.len()
        invariant
            i <= l@.len(),
            out@.map_values(|s: String| s@) == present_addresses(address_list_view(l@.take(i as int))),
        decreases l.len() - i,
    {
        let ghost before = out@;
        proof {
            let t = address_list_view(l@.take(i + 1));
            assert(t.drop_last() =~= address_list_view(l@.take(i as int)));
            assert(t.last() == opt_text(l@[i as int]));
        }
        match &l[i] {
            Some(a) => {
                out.push(a.clone());
                assert(out@.map_values(|s: String| s@) =~= before.map_values(|s: String| s@).push(a@));
            },
            None => {},
        }
        i = i + 1;
    }
    assert(l@.take(l@.len() as int) =~= l@);
    out
}

/// The message with UID `uid` made of the fields the parser read: the
/// subject, the address of the first From mailbox, the addresses of the To
/// mailboxes that have one, and the first text and HTML bodies; no date and
/// no attachments.
pub fn agent_message_from(uid: u32, parsed: ParsedMail) -> (r: AgentMessage)
    ensures
        message_from_fields(r, uid, parsed@),
            r.uid == uid,
            opt_text(r.subject) == opt_text(parsed.subject),
            opt_text(r.body) == opt_text(parsed.text_body),
            opt_text(r.html_body) == opt_text(parsed.html_body),
            opt_text(r.from) == match parsed.from {
                Some(l) => if l@.len() > 0 { opt_text(l@[0]) } else { None },
                None => None,
            },
            r.to@.map_values(|s: String| s@) == match parsed.to {
                Some(l) => address_list_view(l@).filter_map(|a: Option<Seq<char>>| a),
                None => Seq::<Seq<char>>::empty(),
            },
            r.date is None,
            r.attachments@.len() == 0,
{
    proof {
        lemma_message_from_fields_law(uid, parsed@);
    }
    let from = match &parsed.from {
        Some(l) => first_present(l),
        None => None,
    };
    let to = match &parsed.to {
        Some(l) => present_list(l),
        None => Vec::new(),
    };
    assert(to@.map_values(|s: String| s@) =~= recipients(parsed@.2));
    let ghost fields = parsed@;
    let m = AgentMessage {
        uid,
        subject: parsed.subject,
        from,
        to,
        date: None,
        body: parsed.text_body,
        html_body: parsed.html_body,
        attachments: Vec::new(),
    };
    assert(message_from_fields(m, uid, fields));
    m
}

/// Reads the message with UID `uid` from its raw RFC 822 bytes. Fails with a
/// parse error exactly where the parser rejects the bytes.
pub fn parse_message(body: &[u8], uid: u32) -> (r: Result<AgentMessage, MailError>)
    ensures
        match rfc822_fields(body@) {
            Some(f) => r matches Ok(m) && message_from_fields(m, uid, f) && m.uid == uid
                && opt_text(m.subject) == f.0 && opt_text(m.body) == f.3 && opt_text(m.html_body)
                == f.4 && opt_text(m.from) == match f.1 {
                Some(l) => if l.len() > 0 { l[0] } else { None },
                None => None,
            } && m.to@.map_values(|s: String| s@) == match f.2 {
                Some(l) => l.filter_map(|a: Option<Seq<char>>| a),
                None => Seq::<Seq<char>>::empty(),
            } && m.date is None && m.attachments@.len() == 0,
            None => r matches Err(MailError::Parse(t)) && t@ == unparsable_text(),
        },
{
    proof {
        if rfc822_fields(body@) is Some {
            lemma_message_from_fields_law(uid, rfc822_fields(body@)->0);
        }
    }
    match read_rfc822(body) {
        Some(parsed) => Ok(agent_message_from(uid, parsed)),
        None => Err(MailError::Parse(to_owned_string("Failed to parse RFC822 message"))),
    }
}

/// One item the server returned for a UID FETCH: its UID, if reported, and
/// its RFC 822 source, if it carried one.
pub struct FetchedMessage {
    pub uid: Option<u32>,
    pub body: Option<Vec<u8>>,
}

/// The items that carry a source, with their UID (0 where none was reported).
pub open spec fn sources(s: Seq<FetchedMessage>) -> Seq<(u32, Seq<u8>)>
    decreases s.len(),
{
    if s.len() == 0 {
        Seq::empty()
    } else {
        let f = s.last();
        match f.body {
            Some(b) => sources(s.drop_last()).push(
                (
                    match f.uid {
                        Some(u) => u,
                        None => 0u32,
                    },
                    b@,
                ),
            ),
            None => sources(s.drop_last()),
        }
    }
}

/// The sources read from a FETCH reply are those of every item that carries
/// one, in the order returned, each with the item's UID, or 0 where none was
/// reported; items without a source are skipped.
pub proof fn lemma_sources_keep_every_source(s: Seq<FetchedMessage>)
    ensures
        sources(s) == s.filter_map(|f: FetchedMessage| match f.body {
            Some(b) => Some((
                match f.uid {
                    Some(u) => u,
                    None => 0u32,
                },
                b@,
            )),
            None => None,
        }),
    decreases s.len(),
{
    if s.len() > 0 {
        lemma_sources_keep_every_source(s.drop_last());
        let f = s.last();
        match f.body {
            Some(b) => {
                let item = (
                    match f.uid {
                        Some(u) => u,
                        None => 0u32,
                    },
                    b@,
                );
                assert(sources(s.drop_last()).push(item) =~= sources(s.drop_last()) + seq![item]);
            },
            None => {},
        }
    }
}

/// Every source in `srcs` is accepted by the parser.
pub open spec fn all_parse(srcs: Seq<(u32, Seq<u8>)>) -> bool {
    forall|i: int| 0 <= i < srcs.len() ==> #[trigger] rfc822_fields(srcs[i].1) is Some
}

/// Reads the messages out of what a UID FETCH returned, in the order
/// returned, skipping items without a source; an item without a UID gets
/// UID 0. Fails with the parse error as soon as one source is rejected.
pub fn messages_from_fetches(fetches: &Vec<FetchedMessage>) -> (r: Result<Vec<AgentMessage>, MailError>)
    ensures
        all_parse(sources(fetches@)) ==> (r matches Ok(v) && v@.len() == sources(fetches@).len() && (
        forall|i: int|
            0 <= i < v@.len() ==> message_from_fields(
                #[trigger] v@[i],
                sources(fetches@)[i].0,
                rfc822_fields(sources(fetches@)[i].1)->0,
            ))),
        !all_parse(sources(fetches@)) ==> (r matches Err(MailError::Parse(t)) && t@
            == unparsable_text()),
{
    let mut out: Vec<AgentMessage> = Vec::new();
    let mut i: usize = 0;
    while i < fetches.len()
        invariant
            i <= fetches@.len(),
            all_parse(sources(fetches@.take(i as int))),
            out@.len() == sources(fetches@.take(i as int)).len(),
            forall|k: int|
                0 <= k < out@.len() ==> message_from_fields(
                    #[trigger] out@[k],
                    sources(fetches@.take(i as int))[k].0,
                    rfc822_fields(sources(fetches@.take(i as int))[k].1)->0,
                ),
        decreases fetches.len() - i,
    {
        let ghost prev = sources(fetches@.take(i as int));
        proof {
            assert(fetches@.take(i + 1).drop_last() =~= fetches@.take(i as int));
            assert(fetches@.take(i + 1).last() == fetches@[i as int]);
        }
        let f = &fetches[i];
        match &f.body {
            Some(b) => {
                let uid: u32 = match f.uid {
                    Some(u) => u,
                    None => 0,
                };
                let ghost now = sources(fetches@.take(i + 1));
                assert(now == prev.push((uid, b@)));
                match parse_message(b.as_slice(), uid) {
                    Ok(m) => {
                        out.push(m);
                        assert(all_parse(now)) by {
                            assert forall|k: int| 0 <= k < now.len() implies #[trigger] rfc822_fields(now[k].1) is Some by {
                                if k < prev.len() {
                                    assert(now[k] == prev[k]);
                                }
                            }
                        }
                        assert forall|k: int| 0 <= k < out@.len() implies message_from_fields(
                            #[trigger] out@[k],
                            now[k].0,
                            rfc822_fields(now[k].1)->0,
                        ) by {
                            if k < prev.len() {
                                assert(now[k] == prev[k]);
                            }
                        }
                    },
                    Err(e) => {
                        proof {
                            lemma_sources_prefix(fetches@, i + 1);
                            let all = sources(fetches@);
                            assert(rfc822_fields(b@) is None);
                            assert(all[prev.len() as int] == now[prev.len() as int]);
                            assert(rfc822_fields(all[prev.len() as int].1) is None);
                            assert(!all_parse(all));
                        }
                        return Err(e);
                    },
                }
            },
            None => {
                assert(sources(fetches@.take(i + 1)) == prev);
            },
        }
        i = i + 1;
    }
    assert(fetches@.take(fetches@.len() as int) =~= fetches@);
    Ok(out)
}

/// The sources of a prefix are a prefix of the sources.
proof fn lemma_sources_prefix(s: Seq<FetchedMessage>, n: int)
    requires
        0 <= n <= s.len(),
    ensures
        sources(s.take(n)).len() <= sources(s).len(),
        forall|k: int| 0 <= k < sources(s.take(n)).len() ==> #[trigger] sources(s)[k] == sources(s.take(n))[k],
    decreases s.len() - n,
{
    if n < s.len() {
        lemma_sources_prefix(s, n + 1);
        assert(s.take(n + 1).drop_last() =~= s.take(n));
    } else {
        assert(s.take(n) =~= s);
    }
}

/// Reads the message with UID `uid` from what a UID FETCH of that UID
/// returned: nothing when the first item is missing or has no source,
/// otherwise its source read as in `parse_message`.
pub fn message_from_first_fetch(fetches: &Vec<FetchedMessage>, uid: u32) -> (r: Result<Option<AgentMessage>, MailError>)
    ensures
        (fetches@.len() == 0 || fetches@[0].body is None) ==> r matches Ok(None),
        fetches@.len() > 0 && fetches@[0].body is Some ==> match rfc822_fields(fetches@[0].body->0@) {
            Some(f) => r matches Ok(Some(m)) && message_from_fields(m, uid, f),
            None => r matches Err(MailError::Parse(t)) && t@ == unparsable_text(),
        },
{
    if fetches.len() == 0 {
        return Ok(None);
    }
    match &fetches[0].body {
        Some(b) => match parse_message(b.as_slice(), uid) {
            Ok(m) => Ok(Some(m)),
            Err(e) => Err(e),
        },
        None => Ok(None),
    }
}

/// The SEARCH criteria for the messages not yet seen.
pub const UNSEEN_CRITERIA: &'static str = "UNSEEN";

/// The FETCH item asked for: the whole RFC 822 source.
pub const FETCH_ITEMS: &'static str = "RFC822";

/// The STORE change that marks a message read.
pub const MARK_SEEN: &'static str = "+FLAGS (\\Seen)";

/// The LIST pattern that matches every mailbox.
pub const ALL_MAILBOXES: &'static str = "*";

/// The UID set of a UID command: the UIDs in decimal, comma-separated.
pub open spec fn uid_set_text(uids: Seq<u32>) -> Seq<char> {
    join(uids.map_values(|u: u32| decimal(u as nat)), ","@)
}

/// The UID set naming `uids`, or `None` when there are none (the server is
/// then not asked to fetch anything).
pub fn uid_set(uids: &Vec<u32>) -> (r: Option<String>)
    ensures
        uids@.len() == 0 ==> r is None,
        uids@.len() > 0 ==> (r matches Some(s) && s@ == uid_set_text(uids@)),
        uids@.len() > 0 ==> (r matches Some(s) && s@ == join(
            uids@.map_values(|u: u32| decimal(u as nat)),
            ","@,
        )),
{
    if uids.len() == 0 {
        return None;
    }
    let ghost parts = uids@.map_values(|u: u32| decimal(u as nat));
    let mut out = String::new();
    let mut i: usize = 0;
    while i < uids.len()
        invariant
            i <= uids@.len(),
            parts == uids@.map_values(|u: u32| decimal(u as nat)),
            out@ == join(parts.take(i as int), ","@),
        decreases uids.len() - i,
    {
        proof {
            assert(parts.take(i + 1).drop_last() =~= parts.take(i as int));
        }
        if i > 0 {
            out.append(",");
        }
        push_decimal(&mut out, uids[i] as u64);
        i = i + 1;
    }
    assert(parts.take(uids@.len() as int) =~= parts);
    Some(out)
}

/// The UID of a message as command text.
pub fn uid_text(uid: u32) -> (r: String)
    ensures
        r@ == decimal(uid as nat),
{
    decimal_string(uid as u64)
}

/// The IMAP SEARCH criteria for messages whose subject or sender contains
/// `query`. The query is put between the quotes as it is.
pub open spec fn search_criteria(query: Seq<char>) -> Seq<char> {
    "OR SUBJECT \""@ + query + "\" FROM \""@ + query + "\""@
}

/// The criteria match a message by its subject or by its sender: they are
/// the `OR` of a `SUBJECT` key and a `FROM` key, each with the whole query as
/// its quoted argument, for every query.
pub proof fn lemma_search_by_subject_or_sender(q: Seq<char>)
    ensures
        ({
            let c = search_criteria(q);
            let subject_key = "SUBJECT \""@ + q + "\""@;
            let from_key = "FROM \""@ + q + "\""@;
            &&& c.len() == 3 + subject_key.len() + 1 + from_key.len()
            &&& c.take(3) == "OR "@
            &&& c.subrange(3, 3 + subject_key.len() as int) == subject_key
            &&& c[3 + subject_key.len() as int] == ' '
            &&& c.subrange(4 + subject_key.len() as int, c.len() as int) == from_key
        }),
{
    reveal_strlit("OR SUBJECT \"");
    reveal_strlit("\" FROM \"");
    reveal_strlit("\"");
    reveal_strlit("SUBJECT \"");
    reveal_strlit("FROM \"");
    reveal_strlit("OR ");
    let c = search_criteria(q);
    let subject_key = "SUBJECT \""@ + q + "\""@;
    let from_key = "FROM \""@ + q + "\""@;
    assert(c =~= "OR "@ + subject_key + seq![' '] + from_key);
    assert(c.take(3) =~= "OR "@);
    assert(c.subrange(3, 3 + subject_key.len() as int) =~= subject_key);
    assert(c.subrange(4 + subject_key.len() as int, c.len() as int) =~= from_key);
}

/// The IMAP SEARCH criteria for messages whose subject or sender contains `query`.
pub fn search_criteria_text(query: &str) -> (r: String)
    ensures
        r@ == search_criteria(query@),
        r@ == "OR SUBJECT \""@ + query@ + "\" FROM \""@ + query@ + "\""@,
{
    let mut out = to_owned_string("OR SUBJECT \"");
    out.append(query);
    out.append("\" FROM \"");
    out.append(query);
    out.append("\"");
    out
}

} // verus!
