//! The computing part of the SQLite + full-text index backend: the values
//! written for a message, the record read back from a row, the SQL of a
//! search by UID list, and the decisions taken on the backend's answers.
use vstd::prelude::*;

use super::database::{StoreError, StoredEmail};
use crate::mail::imap::opt_text;
use crate::mail::AgentMessage;
use crate::text::{contains_seq, contains_str, join, join_strings, string_views, to_owned_string};

verus! {

#[verifier::external_type_specification]
#[verifier::external_body]
pub struct ExSystemTime(std::time::SystemTime);

#[verifier::external_type_specification]
#[verifier::external_body]
pub struct ExSystemTimeError(std::time::SystemTimeError);

/// `std::time::SystemTime::now()`: the current time of the system clock.
#[verifier::external_body]
fn system_now() -> std::time::SystemTime {
    std::time::SystemTime::now()
}

/// `SystemTime::duration_since(UNIX_EPOCH)`: how long after the Unix epoch
/// `t` lies, or an error when it lies before it.
#[verifier::external_body]
fn since_unix_epoch(t: &std::time::SystemTime) -> Result<core::time::Duration, std::time::SystemTimeError> {
    t.duration_since(std::time::UNIX_EPOCH)
}

/// `Duration::as_secs`: the whole seconds of a duration.
#[verifier::external_body]
fn whole_seconds(d: &core::time::Duration) -> u64 {
    d.as_secs()
}

/// A count of seconds as stored: the same bits read as a signed number.
pub fn timestamp_from_secs(secs: u64) -> (r: i64)
    ensures
        r == secs as i64,
{
    secs as i64
}

/// The current time in seconds since the Unix epoch, as stored with each email.
/// A clock before the epoch counts as the epoch itself.
pub fn now_secs() -> i64 {
    let secs: u64 = match since_unix_epoch(&system_now()) {
        Ok(d) => whole_seconds(&d),
        Err(_) => 0,
    };
    timestamp_from_secs(secs)
}

/// What `serde_json::to_string` makes of a list of strings, `None` where it fails.
pub uninterp spec fn json_of_strings(items: Seq<Seq<char>>) -> Option<Seq<char>>;

/// What `serde_json::from_str::<Vec<String>>` makes of a text, `None` where
/// the text is not a JSON array of strings.
pub uninterp spec fn strings_of_json(text: Seq<char>) -> Option<Seq<Seq<char>>>;

/// Writes a list of strings as a JSON array with `serde_json::to_string`.
/// For a `Vec<String>` this cannot fail: the serializer writes `[`, each
/// string as a JSON string literal (quotes, with `"`, `\\` and control
/// characters escaped) separated by `,`, and `]`, into a `Vec<u8>`, and the
/// only errors it can raise come from map keys or from a failing writer. Reading
/// that text back with `serde_json::from_str::<Vec<String>>` unescapes each
/// literal and gives the same strings in the same order.
#[verifier::external_body]
fn write_json_strings(items: &Vec<String>) -> (r: Option<String>)
    ensures
        r is Some,
        match r {
            Some(t) => json_of_strings(string_views(items@)) == Some(t@) && strings_of_json(t@)
                == Some(string_views(items@)),
            None => json_of_strings(string_views(items@)) is None,
        },
{
    serde_json::to_string(items).ok()
}

/// Reads a JSON array of strings with `serde_json::from_str::<Vec<String>>`.
#[verifier::external_body]
fn read_json_strings(text: &str) -> (r: Option<Vec<String>>)
    ensures
        match r {
            Some(v) => strings_of_json(text@) == Some(string_views(v@)),
            None => strings_of_json(text@) is None,
        },
{
    serde_json::from_str::<Vec<String>>(text).ok()
}

/// The stored form of a recipient list: its JSON text, `[]` if it cannot be written.
pub open spec fn recipients_column(to: Seq<Seq<char>>) -> Seq<char> {
    match json_of_strings(to) {
        Some(t) => t,
        None => "[]"@,
    }
}

/// The stored form of a recipient list: its JSON text, `[]` if it cannot be written.
pub fn encode_recipients(to: &Vec<String>) -> (r: String)
    ensures
        r@ == recipients_column(string_views(to@)),
        recipients_of_column(r@) == string_views(to@),
{
    match write_json_strings(to) {
        Some(t) => t,
        None => to_owned_string("[]"),
    }
}

/// The recipient list read back from its stored form: empty if the text is
/// not a JSON array of strings.
pub open spec fn recipients_of_column(text: Seq<char>) -> Seq<Seq<char>> {
    match strings_of_json(text) {
        Some(v) => v,
        None => Seq::empty(),
    }
}

/// The recipient list read back from its stored form: empty if the text is
/// not a JSON array of strings.
pub fn decode_recipients(text: &str) -> (r: Vec<String>)
    ensures
        string_views(r@) == recipients_of_column(text@),
{
    match read_json_strings(text) {
        Some(v) => v,
        None => Vec::new(),
    }
}

/// The columns of one row of the `emails` table as the database driver
/// returned them: each value, or the text of the error reading it.
pub struct EmailRow {
    pub uid: Result<i64, String>,
    pub subject: Result<Option<String>, String>,
    pub from_addr: Result<Option<String>, String>,
    pub to_addrs: Result<String, String>,
    pub body: Result<Option<String>, String>,
    pub html_body: Result<Option<String>, String>,
    pub date: Result<Option<String>, String>,
    pub is_read: Result<i64, String>,
    pub mailbox: Result<Option<String>, String>,
    pub stored_at: Result<i64, String>,
}

/// An optional text column: its value, or absent when it could not be read.
pub open spec fn text_column(c: Result<Option<String>, String>) -> Option<Seq<char>> {
    match c {
        Ok(v) => opt_text(v),
        Err(_) => None,
    }
}

fn read_text_column(c: Result<Option<String>, String>) -> (r: Option<String>)
    ensures
        opt_text(r) == text_column(c),
{
    match c {
        Ok(v) => v,
        Err(_) => None,
    }
}

/// `e` is the email a row holds, with `to` the recipients read from its JSON
/// column: the UID (its low 32 bits), the message columns, read unless the
/// flag is 0 or unreadable, and the stored time (0 when unreadable).
pub open spec fn email_of_columns(e: StoredEmail, row: EmailRow, to: Seq<Seq<char>>) -> bool {
    &&& row.uid matches Ok(uid) && e.message.uid == uid as u32
    &&& opt_text(e.message.subject) == text_column(row.subject)
    &&& opt_text(e.message.from) == text_column(row.from_addr)
    &&& string_views(e.message.to@) == to
    &&& opt_text(e.message.date) == text_column(row.date)
    &&& opt_text(e.message.body) == text_column(row.body)
    &&& opt_text(e.message.html_body) == text_column(row.html_body)
    &&& e.message.attachments@.len() == 0
    &&& e.is_read == (row.is_read matches Ok(f) && f != 0)
    &&& opt_text(e.mailbox) == text_column(row.mailbox)
    &&& e.stored_at == match row.stored_at {
        Ok(t) => t,
        Err(_) => 0,
    }
}

/// The text of the recipients column: empty when it could not be read.
pub open spec fn recipients_text(row: EmailRow) -> Seq<char> {
    match row.to_addrs {
        Ok(t) => t@,
        Err(_) => Seq::empty(),
    }
}

/// `e` is the email a row holds, its recipients decoded from the JSON column.
pub open spec fn email_of_row(e: StoredEmail, row: EmailRow) -> bool {
    email_of_columns(e, row, recipients_of_column(recipients_text(row)))
}

/// The email a row holds, given the recipients already read from its JSON
/// column. Only an unreadable UID is an error (a database error with the
/// driver's text); any other unreadable column takes its empty value.
pub fn stored_email_from_columns(row: EmailRow, to: Vec<String>) -> (r: Result<StoredEmail, StoreError>)
    ensures
        match row.uid {
            Ok(_) => r matches Ok(e) && email_of_columns(e, row, string_views(to@)),
            Err(t) => r matches Err(StoreError::Database(d)) && d == t,
        },
        row.uid matches Ok(u) ==> (r matches Ok(e) && e.message.uid == u as u32
            && opt_text(e.message.subject) == text_column(row.subject)
            && opt_text(e.message.from) == text_column(row.from_addr)
            && string_views(e.message.to@) == string_views(to@)
            && opt_text(e.message.date) == text_column(row.date)
            && opt_text(e.message.body) == text_column(row.body)
            && opt_text(e.message.html_body) == text_column(row.html_body)
            && e.message.attachments@.len() == 0
            && e.is_read == (row.is_read matches Ok(f) && f != 0)
            && opt_text(e.mailbox) == text_column(row.mailbox)
            && e.stored_at == match row.stored_at {
                Ok(t) => t,
                Err(_) => 0,
            }),
{
    let uid: i64 = match row.uid {
        Ok(u) => u,
        Err(t) => {
            return Err(StoreError::Database(t));
        },
    };
    let is_read: i64 = match row.is_read {
        Ok(f) => f,
        Err(_) => 0,
    };
    let stored_at: i64 = match row.stored_at {
        Ok(t) => t,
        Err(_) => 0,
    };
    let message = AgentMessage {
        uid: uid as u32,
        subject: read_text_column(row.subject),
        from: read_text_column(row.from_addr),
        to,
        date: read_text_column(row.date),
        body: read_text_column(row.body),
        html_body: read_text_column(row.html_body),
        attachments: Vec::new(),
    };
    Ok(StoredEmail { message, is_read: is_read != 0, mailbox: read_text_column(row.mailbox), stored_at })
}

/// The email a row of the `emails` table holds, its recipients decoded from
/// the JSON column (an unreadable or malformed column gives no recipients).
pub fn stored_email_from_row(row: EmailRow) -> (r: Result<StoredEmail, StoreError>)
    ensures
        match row.uid {
            Ok(_) => r matches Ok(e) && email_of_row(e, row),
            Err(t) => r matches Err(StoreError::Database(d)) && d == t,
        },
{
    proof {
        reveal_strlit("");
        assert(""@ =~= Seq::<char>::empty());
    }
    let to = match &row.to_addrs {
        Ok(t) => decode_recipients(t.as_str()),
        Err(_) => decode_recipients(""),
    };
    stored_email_from_columns(row, to)
}

/// The text fields of a message as written to the full-text index.
pub struct IndexDocument {
    pub uid: u64,
    pub subject: String,
    pub from: String,
    pub to: String,
    pub body: String,
    pub date: String,
}

/// An optional text, or empty when absent.
pub open spec fn text_or_empty(t: Option<String>) -> Seq<char> {
    match t {
        Some(s) => s@,
        None => Seq::empty(),
    }
}

fn owned_or_empty(t: &Option<String>) -> (r: String)
    ensures
        r@ == text_or_empty(*t),
{
    match t {
        Some(s) => s.clone(),
        None => String::new(),
    }
}

/// The index document of a message: its UID, subject, sender, recipients
/// separated by spaces, text body and date, each absent text left empty.
pub fn index_document(msg: &AgentMessage) -> (r: IndexDocument)
    ensures
        r.uid == msg.uid,
        r.subject@ == text_or_empty(msg.subject),
        r.from@ == text_or_empty(msg.from),
        r.to@ == join(string_views(msg.to@), " "@),
        r.body@ == text_or_empty(msg.body),
        r.date@ == text_or_empty(msg.date),
{
    IndexDocument {
        uid: msg.uid as u64,
        subject: owned_or_empty(&msg.subject),
        from: owned_or_empty(&msg.from),
        to: join_strings(&msg.to, " "),
        body: owned_or_empty(&msg.body),
        date: owned_or_empty(&msg.date),
    }
}

/// `n` bind markers separated by commas: `?, ?, ?`.
pub open spec fn placeholders(n: nat) -> Seq<char>
    decreases n,
{
    if n == 0 {
        Seq::empty()
    } else if n == 1 {
        "?"@
    } else {
        placeholders((n - 1) as nat) + ", ?"@
    }
}

/// `n` bind markers separated by commas: `?, ?, ?`.
pub fn placeholder_list(n: usize) -> (r: String)
    ensures
        r@ == placeholders(n as nat),
        n == 0 ==> r@.len() == 0,
        n > 0 ==> r@.len() == 3 * n - 2,
        forall|k: int| 0 <= k < n ==> #[trigger] r@[3 * k] == '?',
        forall|k: int| 0 <= k < n - 1 ==> #[trigger] r@[3 * k + 1] == ',',
        forall|k: int| 0 <= k < n - 1 ==> #[trigger] r@[3 * k + 2] == ' ',
{
    let mut out = String::new();
    let mut i: usize = 0;
    while i < n
        invariant
            i <= n,
            out@ == placeholders(i as nat),
        decreases n - i,
    {
        if i == 0 {
            out.append("?");
        } else {
            out.append(", ?");
        }
        i = i + 1;
    }
    proof {
        lemma_placeholders_shape(n as nat);
    }
    out
}

/// `n` bind markers are `?` at every third position from the first, with
/// `, ` between consecutive ones and nothing else: `3n - 2` characters in all
/// (none for no marker).
pub proof fn lemma_placeholders_shape(n: nat)
    ensures
        n == 0 ==> placeholders(n).len() == 0,
        n > 0 ==> placeholders(n).len() == 3 * n - 2,
        forall|k: int| 0 <= k < n ==> #[trigger] placeholders(n)[3 * k] == '?',
        forall|k: int| 0 <= k < n - 1 ==> #[trigger] placeholders(n)[3 * k + 1] == ',',
        forall|k: int| 0 <= k < n - 1 ==> #[trigger] placeholders(n)[3 * k + 2] == ' ',
    decreases n,
{
    reveal_strlit("?");
    reveal_strlit(", ?");
    if n > 1 {
        lemma_placeholders_shape((n - 1) as nat);
        let p = placeholders((n - 1) as nat);
        assert(placeholders(n) == p + ", ?"@);
        assert forall|k: int| 0 <= k < n implies #[trigger] placeholders(n)[3 * k] == '?' by {
            if k < n - 1 {
                assert(placeholders(n)[3 * k] == p[3 * k]);
            }
        }
        assert(", ?"@[0] == ',' && ", ?"@[1] == ' ' && ", ?"@[2] == '?');
        assert forall|k: int| 0 <= k < n - 1 implies #[trigger] placeholders(n)[3 * k + 1] == ',' by {
            if k < n - 2 {
                assert(placeholders(n)[3 * k + 1] == p[3 * k + 1]);
            } else {
                assert(placeholders(n)[3 * k + 1] == ", ?"@[0]);
            }
        }
        assert forall|k: int| 0 <= k < n - 1 implies #[trigger] placeholders(n)[3 * k + 2] == ' ' by {
            if k < n - 2 {
                assert(placeholders(n)[3 * k + 2] == p[3 * k + 2]);
            } else {
                assert(placeholders(n)[3 * k + 2] == ", ?"@[1]);
            }
        }
    }
}

/// The columns every query of stored emails reads.
pub open spec fn select_head() -> Seq<char> {
    "SELECT uid, subject, from_addr, to_addrs, body, html_body, date, is_read, mailbox, stored_at FROM emails WHERE uid IN ("@
}

/// The query for the stored emails whose UID is one of `n` bound values.
pub fn select_by_uids_sql(n: usize) -> (r: String)
    ensures
        r@ == select_head() + placeholders(n as nat) + ")"@,
{
    let mut out = to_owned_string(
        "SELECT uid, subject, from_addr, to_addrs, body, html_body, date, is_read, mailbox, stored_at FROM emails WHERE uid IN (",
    );
    let list = placeholder_list(n);
    out.append(list.as_str());
    out.append(")");
    out
}

/// The UIDs the index search found, in rank order: the UID field of each hit
/// that has one, cut to its low 32 bits.
pub open spec fn hit_uids(hits: Seq<Option<u64>>) -> Seq<u32>
    decreases hits.len(),
{
    if hits.len() == 0 {
        Seq::empty()
    } else {
        match hits.last() {
            Some(u) => hit_uids(hits.drop_last()).push(u as u32),
            None => hit_uids(hits.drop_last()),
        }
    }
}

/// The UIDs the index search found, in rank order: the UID field of each hit
/// that has one, cut to its low 32 bits.
pub fn uids_from_hits(hits: &Vec<Option<u64>>) -> (r: Vec<u32>)
    ensures
        r@ == hit_uids(hits@),
        r@ == hits@.filter_map(|h: Option<u64>| match h {
            Some(u) => Some(u as u32),
            None => None,
        }),
{
    let mut out: Vec<u32> = Vec::new();
    let mut i: usize = 0;
    while i < hits.len()
        invariant
            i <= hits@.len(),
            out@ == hit_uids(hits@.take(i as int)),
        decreases hits.len() - i,
    {
        proof {
            assert(hits@.take(i + 1).drop_last() =~= hits@.take(i as int));
        }
        match hits[i] {
            Some(u) => out.push(u as u32),
            None => {},
        }
        i = i + 1;
    }
    assert(hits@.take(hits@.len() as int) =~= hits@);
    proof {
        lemma_hit_uids_keep_every_uid(hits@);
    }
    out
}

/// The UIDs taken from the hits are the UID of every hit that has one, in
/// the order of the hits, each cut to its low 32 bits; hits without a UID are
/// skipped.
pub proof fn lemma_hit_uids_keep_every_uid(hits: Seq<Option<u64>>)
    ensures
        hit_uids(hits) == hits.filter_map(|h: Option<u64>| match h {
            Some(u) => Some(u as u32),
            None => None,
        }),
    decreases hits.len(),
{
    if hits.len() > 0 {
        lemma_hit_uids_keep_every_uid(hits.drop_last());
        match hits.last() {
            Some(u) => {
                assert(hit_uids(hits.drop_last()).push(u as u32) =~= hit_uids(hits.drop_last())
                    + seq![u as u32]);
            },
            None => {},
        }
    }
}

/// The outcome of marking a message read, from the number of rows the update
/// changed: not found when it changed none.
pub fn mark_read_outcome(rows_affected: u64) -> (r: Result<(), StoreError>)
    ensures
        rows_affected == 0 ==> r matches Err(StoreError::NotFound),
        rows_affected != 0 ==> r is Ok,
{
    if rows_affected == 0 {
        Err(StoreError::NotFound)
    } else {
        Ok(())
    }
}

/// The number of stored emails from the `COUNT(*)` column (the same bits
/// read as unsigned).
pub fn count_from_column(cnt: i64) -> (r: u64)
    ensures
        r == cnt as u64,
{
    cnt as u64
}

/// Whether an error from opening the index writer says the index lock is
/// held; the backend then removes a stale lock file and tries once more.
pub fn is_lock_busy(error_text: &str) -> (r: bool)
    ensures
        r == contains_seq(error_text@, "LockBusy"@),
{
    contains_str(error_text, "LockBusy")
}

/// The error when the index is still locked after the stale lock was removed.
pub open spec fn locked_index_text(path: Seq<char>, detail: Seq<char>) -> Seq<char> {
    "Tantivy index is locked at '"@ + path
        + "'. Stop all other panorama-mail processes and try again. ("@ + detail + ")"@
}

/// The error when the index is still locked after the stale lock was removed.
pub fn locked_index_error(path: &str, detail: &str) -> (r: StoreError)
    ensures
        r matches StoreError::Search(t) && t@ == locked_index_text(path@, detail@),
{
    let mut t = to_owned_string("Tantivy index is locked at '");
    t.append(path);
    t.append("'. Stop all other panorama-mail processes and try again. (");
    t.append(detail);
    t.append(")");
    StoreError::Search(t)
}

/// The values an upsert binds for a message: its UID, its text columns, its
/// recipients in their stored form and the time it is stored at, in the
/// order `UPSERT_SQL` binds them. (What SQLite does with them for a row that
/// already exists is written in that statement; it is not stated here.)
pub struct UpsertValues {
    pub uid: i64,
    pub subject: Option<String>,
    pub from_addr: Option<String>,
    pub to_addrs: String,
    pub body: Option<String>,
    pub html_body: Option<String>,
    pub date: Option<String>,
    pub stored_at: i64,
}

/// `v` holds the values an upsert of `msg` at time `stored_at` binds.
pub open spec fn upsert_values_of(v: UpsertValues, msg: AgentMessage, stored_at: i64) -> bool {
    &&& v.uid == msg.uid as i64
    &&& opt_text(v.subject) == opt_text(msg.subject)
    &&& opt_text(v.from_addr) == opt_text(msg.from)
    &&& v.to_addrs@ == recipients_column(string_views(msg.to@))
    &&& recipients_of_column(v.to_addrs@) == string_views(msg.to@)
    &&& opt_text(v.body) == opt_text(msg.body)
    &&& opt_text(v.html_body) == opt_text(msg.html_body)
    &&& opt_text(v.date) == opt_text(msg.date)
    &&& v.stored_at == stored_at
}

/// The values an upsert of `msg` at time `stored_at` binds.
pub fn upsert_values(msg: &AgentMessage, stored_at: i64) -> (r: UpsertValues)
    ensures
        upsert_values_of(r, *msg, stored_at),
{
    UpsertValues {
        uid: msg.uid as i64,
        subject: msg.subject.clone(),
        from_addr: msg.from.clone(),
        to_addrs: encode_recipients(&msg.to),
        body: msg.body.clone(),
        html_body: msg.html_body.clone(),
        date: msg.date.clone(),
        stored_at,
    }
}

/// The row the `emails` table holds after `v` was written, with read flag
/// `is_read` and mailbox `mailbox`, every column readable.
pub open spec fn row_of_values(v: UpsertValues, is_read: i64, mailbox: Option<String>) -> EmailRow {
    EmailRow {
        uid: Ok(v.uid),
        subject: Ok(v.subject),
        from_addr: Ok(v.from_addr),
        to_addrs: Ok(v.to_addrs),
        body: Ok(v.body),
        html_body: Ok(v.html_body),
        date: Ok(v.date),
        is_read: Ok(is_read),
        mailbox: Ok(mailbox),
        stored_at: Ok(v.stored_at),
    }
}

/// Reading back the row written for a message gives the message back: the
/// same UID, subject, sender, recipients, date, bodies and stored time; the
/// read flag and mailbox are those the row holds.
pub proof fn lemma_written_row_reads_back(
    msg: AgentMessage,
    stored_at: i64,
    v: UpsertValues,
    is_read: i64,
    mailbox: Option<String>,
    e: StoredEmail,
)
    requires
        upsert_values_of(v, msg, stored_at),
        email_of_row(e, row_of_values(v, is_read, mailbox)),
    ensures
        e.message.uid == msg.uid,
        opt_text(e.message.subject) == opt_text(msg.subject),
        opt_text(e.message.from) == opt_text(msg.from),
        opt_text(e.message.date) == opt_text(msg.date),
        opt_text(e.message.body) == opt_text(msg.body),
        opt_text(e.message.html_body) == opt_text(msg.html_body),
        string_views(e.message.to@) == string_views(msg.to@),
        e.stored_at == stored_at,
        e.is_read == (is_read != 0),
        opt_text(e.mailbox) == opt_text(mailbox),
{
    assert((msg.uid as i64) as u32 == msg.uid);
}

/// Creates the `emails` table when it does not exist yet.
pub const CREATE_TABLE_SQL: &'static str = "CREATE TABLE IF NOT EXISTS emails (
                uid        INTEGER PRIMARY KEY NOT NULL,
                subject    TEXT,
                from_addr  TEXT,
                to_addrs   TEXT    NOT NULL DEFAULT '[]',
                body       TEXT,
                html_body  TEXT,
                date       TEXT,
                is_read    INTEGER NOT NULL DEFAULT 0,
                mailbox    TEXT,
                stored_at  INTEGER NOT NULL
            )";

/// Writes a message, binding the `UpsertValues` in field order. A new row
/// starts unread; a row with the same UID gets the new message columns and
/// keeps its read flag, mailbox and first stored time.
pub const UPSERT_SQL: &'static str = "INSERT INTO emails
                (uid, subject, from_addr, to_addrs, body, html_body, date, is_read, stored_at)
             VALUES (?, ?, ?, ?, ?, ?, ?, 0, ?)
             ON CONFLICT(uid) DO UPDATE SET
                subject   = excluded.subject,
                from_addr = excluded.from_addr,
                to_addrs  = excluded.to_addrs,
                body      = excluded.body,
                html_body = excluded.html_body,
                date      = excluded.date";

/// The stored email with the bound UID.
pub const SELECT_BY_UID_SQL: &'static str = "SELECT uid, subject, from_addr, to_addrs, body, html_body, date, is_read, mailbox, stored_at
             FROM emails WHERE uid = ?";

/// Every stored email, newest first.
pub const LIST_ALL_SQL: &'static str = "SELECT uid, subject, from_addr, to_addrs, body, html_body, date, is_read, mailbox, stored_at
             FROM emails ORDER BY stored_at DESC";

/// The stored emails not marked read, newest first.
pub const LIST_UNREAD_SQL: &'static str = "SELECT uid, subject, from_addr, to_addrs, body, html_body, date, is_read, mailbox, stored_at
             FROM emails WHERE is_read = 0 ORDER BY stored_at DESC";

/// Marks the stored email with the bound UID read.
pub const MARK_READ_SQL: &'static str = "UPDATE emails SET is_read = 1 WHERE uid = ?";

/// Deletes the stored email with the bound UID.
pub const DELETE_SQL: &'static str = "DELETE FROM emails WHERE uid = ?";

/// The distinct mailbox names, in order.
pub const LIST_MAILBOXES_SQL: &'static str = "SELECT DISTINCT mailbox FROM emails WHERE mailbox IS NOT NULL ORDER BY mailbox";

/// The number of stored emails, in the column `cnt`.
pub const COUNT_SQL: &'static str = "SELECT COUNT(*) as cnt FROM emails";

/// The stored emails of the bound mailbox, newest first.
pub const LIST_BY_MAILBOX_SQL: &'static str = "SELECT uid, subject, from_addr, to_addrs, body, html_body, date, is_read, mailbox, stored_at
             FROM emails WHERE mailbox = ? ORDER BY stored_at DESC";

/// The stored emails stored between the two bound times, both included, newest first.
pub const LIST_BY_DATE_RANGE_SQL: &'static str = "SELECT uid, subject, from_addr, to_addrs, body, html_body, date, is_read, mailbox, stored_at
             FROM emails WHERE stored_at BETWEEN ? AND ? ORDER BY stored_at DESC";

/// The fields of the full-text index.
pub enum IndexField {
    Uid,
    Subject,
    From,
    To,
    Body,
    Date,
}

/// The name of an index field in the index schema.
pub open spec fn index_field_text(f: IndexField) -> Seq<char> {
    match f {
        IndexField::Uid => "uid"@,
        IndexField::Subject => "subject"@,
        IndexField::From => "from_addr"@,
        IndexField::To => "to_addrs"@,
        IndexField::Body => "body"@,
        IndexField::Date => "date_str"@,
    }
}

/// The name of an index field in the index schema.
pub fn index_field_name(f: IndexField) -> (r: &'static str)
    ensures
        r@ == index_field_text(f),
{
    match f {
        IndexField::Uid => "uid",
        IndexField::Subject => "subject",
        IndexField::From => "from_addr",
        IndexField::To => "to_addrs",
        IndexField::Body => "body",
        IndexField::Date => "date_str",
    }
}

/// How a full-text query is run: over these fields, with every term
/// required (rather than any) when `all_terms` holds, keeping at most
/// `limit` hits by rank.
pub struct SearchSettings {
    pub fields: Vec<IndexField>,
    pub all_terms: bool,
    pub limit: usize,
}

/// A full-text query searches subject, sender, recipients, body and date,
/// requires every term, and keeps the 100 best hits.
pub fn search_settings() -> (r: SearchSettings)
    ensures
        r.fields@ == seq![
            IndexField::Subject,
            IndexField::From,
            IndexField::To,
            IndexField::Body,
            IndexField::Date,
        ],
        r.all_terms,
        r.limit == 100,
{
    let mut fields: Vec<IndexField> = Vec::new();
    fields.push(IndexField::Subject);
    fields.push(IndexField::From);
    fields.push(IndexField::To);
    fields.push(IndexField::Body);
    fields.push(IndexField::Date);
    assert(fields@ =~= seq![
        IndexField::Subject,
        IndexField::From,
        IndexField::To,
        IndexField::Body,
        IndexField::Date,
    ]);
    SearchSettings { fields, all_terms: true, limit: 100 }
}

} // verus!
