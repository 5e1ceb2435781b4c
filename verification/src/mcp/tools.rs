//! The tool catalogue of the JSON-RPC server, the check of a tool call's
//! arguments, and the result a call is answered with.
use vstd::prelude::*;

use crate::cli::handlers::marked_read;
use crate::text::{decimal, push_decimal, str_equal, to_owned_string};

verus! {

/// One parameter of a tool: its name, its JSON type (`string` or
/// `integer`) and a description.
pub struct ToolParam {
    pub name: String,
    pub kind: String,
    pub description: String,
}

/// A tool: its name, description, parameters and the names of the required
/// parameters. Its input schema is the JSON object schema with these
/// properties and, when any, this `required` list.
pub struct ToolDefinition {
    pub name: String,
    pub description: String,
    pub params: Vec<ToolParam>,
    pub required: Vec<String>,
}

pub type ToolParamView = (Seq<char>, Seq<char>, Seq<char>);

pub type ToolDefinitionView = (Seq<char>, Seq<char>, Seq<ToolParamView>, Seq<Seq<char>>);

impl View for ToolParam {
    type V = ToolParamView;

    open spec fn view(&self) -> ToolParamView {
        (self.name@, self.kind@, self.description@)
    }
}

impl View for ToolDefinition {
    type V = ToolDefinitionView;

    open spec fn view(&self) -> ToolDefinitionView {
        (
            self.name@,
            self.description@,
            self.params@.map_values(|p: ToolParam| p@),
            self.required@.map_values(|s: String| s@),
        )
    }
}

pub open spec fn string_param(name: Seq<char>, description: Seq<char>) -> ToolParamView {
    (name, "string"@, description)
}

pub open spec fn integer_param(name: Seq<char>, description: Seq<char>) -> ToolParamView {
    (name, "integer"@, description)
}

pub open spec fn uid_param() -> ToolParamView {
    integer_param("uid"@, "IMAP UID of the message"@)
}

/// The tools the server offers, in the order it lists them.
pub open spec fn tool_catalog() -> Seq<ToolDefinitionView> {
    seq![
        (
            "mail_send"@,
            "Send an email via Proton Bridge"@,
            seq![
                string_param("to"@, "Recipient email address"@),
                string_param("subject"@, "Email subject"@),
                string_param("body"@, "Email body (plain text)"@),
            ],
            seq!["to"@, "subject"@, "body"@],
        ),
        (
            "mail_fetch_unread"@,
            "Fetch all unread messages from the configured mailbox"@,
            Seq::empty(),
            Seq::empty(),
        ),
        (
            "mail_search"@,
            "Search messages by subject or sender"@,
            seq![string_param("query"@, "Term to match against subject or from address"@)],
            seq!["query"@],
        ),
        ("mail_mark_read"@, "Mark a message as read by UID"@, seq![uid_param()], seq!["uid"@]),
        (
            "mail_get_by_uid"@,
            "Fetch a single message by its IMAP UID"@,
            seq![uid_param()],
            seq!["uid"@],
        ),
        (
            "mail_list_mailboxes"@,
            "List all available IMAP mailboxes (folders)"@,
            Seq::empty(),
            Seq::empty(),
        ),
    ]
}

fn param(name: &str, kind: &str, description: &str) -> (r: ToolParam)
    ensures
        r@ == (name@, kind@, description@),
{
    ToolParam {
        name: to_owned_string(name),
        kind: to_owned_string(kind),
        description: to_owned_string(description),
    }
}

fn definition(name: &str, description: &str, params: Vec<ToolParam>, required: Vec<String>) -> (r:
    ToolDefinition)
    ensures
        r@ == (
            name@,
            description@,
            params@.map_values(|p: ToolParam| p@),
            required@.map_values(|s: String| s@),
        ),
{
    ToolDefinition {
        name: to_owned_string(name),
        description: to_owned_string(description),
        params,
        required,
    }
}

fn no_argument_tool(name: &str, description: &str) -> (r: ToolDefinition)
    ensures
        r@ == (name@, description@, Seq::<ToolParamView>::empty(), Seq::<Seq<char>>::empty()),
{
    let params: Vec<ToolParam> = Vec::new();
    let required: Vec<String> = Vec::new();
    assert(params@.map_values(|p: ToolParam| p@) =~= Seq::<ToolParamView>::empty());
    assert(required@.map_values(|s: String| s@) =~= Seq::<Seq<char>>::empty());
    definition(name, description, params, required)
}

/// The tools the server offers: sending, fetching unread messages,
/// searching, marking read, fetching by UID and listing mailboxes.
pub fn build_tool_definitions() -> (r: Vec<ToolDefinition>)
    ensures
        r@.map_values(|d: ToolDefinition| d@) == tool_catalog(),
{
    let mut send_params: Vec<ToolParam> = Vec::new();
    send_params.push(param("to", "string", "Recipient email address"));
    send_params.push(param("subject", "string", "Email subject"));
    send_params.push(param("body", "string", "Email body (plain text)"));
    let mut send_required: Vec<String> = Vec::new();
    send_required.push(to_owned_string("to"));
    send_required.push(to_owned_string("subject"));
    send_required.push(to_owned_string("body"));
    assert(send_params@.map_values(|p: ToolParam| p@) =~= seq![
        string_param("to"@, "Recipient email address"@),
        string_param("subject"@, "Email subject"@),
        string_param("body"@, "Email body (plain text)"@),
    ]);
    assert(send_required@.map_values(|s: String| s@) =~= seq!["to"@, "subject"@, "body"@]);
    let send = definition("mail_send", "Send an email via Proton Bridge", send_params, send_required);

    let fetch = no_argument_tool(
        "mail_fetch_unread",
        "Fetch all unread messages from the configured mailbox",
    );

    let mut search_params: Vec<ToolParam> = Vec::new();
    search_params.push(param("query", "string", "Term to match against subject or from address"));
    let mut search_required: Vec<String> = Vec::new();
    search_required.push(to_owned_string("query"));
    assert(search_params@.map_values(|p: ToolParam| p@) =~= seq![
        string_param("query"@, "Term to match against subject or from address"@),
    ]);
    assert(search_required@.map_values(|s: String| s@) =~= seq!["query"@]);
    let search = definition(
        "mail_search",
        "Search messages by subject or sender",
        search_params,
        search_required,
    );

    let mut mark_params: Vec<ToolParam> = Vec::new();
    mark_params.push(param("uid", "integer", "IMAP UID of the message"));
    let mut mark_required: Vec<String> = Vec::new();
    mark_required.push(to_owned_string("uid"));
    assert(mark_params@.map_values(|p: ToolParam| p@) =~= seq![uid_param()]);
    assert(mark_required@.map_values(|s: String| s@) =~= seq!["uid"@]);
    let mark = definition("mail_mark_read", "Mark a message as read by UID", mark_params, mark_required);

    let mut get_params: Vec<ToolParam> = Vec::new();
    get_params.push(param("uid", "integer", "IMAP UID of the message"));
    let mut get_required: Vec<String> = Vec::new();
    get_required.push(to_owned_string("uid"));
    assert(get_params@.map_values(|p: ToolParam| p@) =~= seq![uid_param()]);
    assert(get_required@.map_values(|s: String| s@) =~= seq!["uid"@]);
    let get = definition(
        "mail_get_by_uid",
        "Fetch a single message by its IMAP UID",
        get_params,
        get_required,
    );

    let list = no_argument_tool("mail_list_mailboxes", "List all available IMAP mailboxes (folders)");

    let mut defs: Vec<ToolDefinition> = Vec::new();
    defs.push(send);
    defs.push(fetch);
    defs.push(search);
    defs.push(mark);
    defs.push(get);
    defs.push(list);
    assert(defs@.map_values(|d: ToolDefinition| d@) =~= tool_catalog());
    defs
}


/// The value of one argument of a tool call, as far as the tools read it: a
/// string, a non-negative integer, or anything else.
pub enum ArgValue {
    Text(String),
    Unsigned(u64),
    Other,
}

/// The arguments of a tool call: the members of the JSON object, in order.
/// Anything but an object carries no arguments.
pub struct ToolArgs {
    pub fields: Vec<(String, ArgValue)>,
}

/// The value of the first argument named `key`.
pub open spec fn arg_lookup(fields: Seq<(String, ArgValue)>, key: Seq<char>) -> Option<ArgValue>
    decreases fields.len(),
{
    if fields.len() == 0 {
        None
    } else if fields[0].0@ == key {
        Some(fields[0].1)
    } else {
        arg_lookup(fields.drop_first(), key)
    }
}

/// The argument named `key` when it is a string.
pub open spec fn arg_text(fields: Seq<(String, ArgValue)>, key: Seq<char>) -> Option<Seq<char>> {
    match arg_lookup(fields, key) {
        Some(ArgValue::Text(s)) => Some(s@),
        _ => None,
    }
}

/// The argument named `key` when it is a non-negative integer.
pub open spec fn arg_unsigned(fields: Seq<(String, ArgValue)>, key: Seq<char>) -> Option<u64> {
    match arg_lookup(fields, key) {
        Some(ArgValue::Unsigned(n)) => Some(n),
        _ => None,
    }
}

fn lookup_arg<'a>(fields: &'a Vec<(String, ArgValue)>, key: &str) -> (r: Option<&'a ArgValue>)
    ensures
        match r {
            Some(v) => arg_lookup(fields@, key@) == Some(*v),
            None => arg_lookup(fields@, key@) is None,
        },
{
    let mut i: usize = 0;
    assert(fields@.skip(0) =~= fields@);
    while i < fields.len()
        invariant
            i <= fields@.len(),
            arg_lookup(fields@, key@) == arg_lookup(fields@.skip(i as int), key@),
        decreases fields.len() - i,
    {
        let ghost rest = fields@.skip(i as int);
        assert(rest[0] == fields@[i as int]);
        if str_equal(fields[i].0.as_str(), key) {
            return Some(&fields[i].1);
        }
        assert(rest.drop_first() =~= fields@.skip(i + 1));
        i = i + 1;
    }
    None
}

fn text_arg(args: &ToolArgs, key: &str) -> (r: Option<String>)
    ensures
        match r {
            Some(s) => arg_text(args.fields@, key@) == Some(s@),
            None => arg_text(args.fields@, key@) is None,
        },
{
    match lookup_arg(&args.fields, key) {
        Some(ArgValue::Text(s)) => Some(s.clone()),
        _ => None,
    }
}

fn unsigned_arg(args: &ToolArgs, key: &str) -> (r: Option<u64>)
    ensures
        r == arg_unsigned(args.fields@, key@),
{
    match lookup_arg(&args.fields, key) {
        Some(ArgValue::Unsigned(n)) => Some(*n),
        _ => None,
    }
}

/// The argument found for a key is the value of the first argument with that
/// name: an earlier argument has another name, and when no argument has it
/// nothing is found.
pub proof fn lemma_first_argument_wins(fields: Seq<(String, ArgValue)>, key: Seq<char>)
    ensures
        match arg_lookup(fields, key) {
            Some(v) => exists|i: int|
                0 <= i < fields.len() && fields[i].0@ == key && fields[i].1 == v && forall|j: int|
                    0 <= j < i ==> (#[trigger] fields[j]).0@ != key,
            None => forall|i: int| 0 <= i < fields.len() ==> (#[trigger] fields[i]).0@ != key,
        },
    decreases fields.len(),
{
    if fields.len() > 0 {
        lemma_first_argument_wins(fields.drop_first(), key);
        let rest = fields.drop_first();
        if fields[0].0@ != key {
            match arg_lookup(rest, key) {
                Some(v) => {
                    let i = choose|i: int|
                        0 <= i < rest.len() && rest[i].0@ == key && rest[i].1 == v && forall|j: int|
                            0 <= j < i ==> (#[trigger] rest[j]).0@ != key;
                    assert(fields[i + 1] == rest[i]);
                    assert forall|j: int| 0 <= j < i + 1 implies (#[trigger] fields[j]).0@ != key by {
                        if j > 0 {
                            assert(fields[j] == rest[j - 1]);
                        }
                    }
                },
                None => {
                    assert forall|i: int| 0 <= i < fields.len() implies (#[trigger] fields[i]).0@
                        != key by {
                        if i > 0 {
                            assert(fields[i] == rest[i - 1]);
                        }
                    }
                },
            }
        }
    }
}

/// A call of `mail_get_by_uid` or `mail_mark_read` whose `uid` argument is a
/// non-negative integer `n` below 2^32 asks for exactly the message with UID `n`.
pub proof fn lemma_uid_calls_ask_for_that_uid(
    name: Seq<char>,
    args: Seq<(String, ArgValue)>,
    n: u64,
    a: ToolAction,
)
    requires
        name == "mail_get_by_uid"@ || name == "mail_mark_read"@,
        arg_lookup(args, "uid"@) == Some(ArgValue::Unsigned(n)),
        n < 0x1_0000_0000,
        call_action(name, args, a),
    ensures
        name == "mail_get_by_uid"@ ==> (a matches ToolAction::GetByUid { uid } && uid == n),
        name == "mail_mark_read"@ ==> (a matches ToolAction::MarkRead { uid } && uid == n),
{
    lemma_tool_names_distinct();
}

/// What a tool call asks the mail client to do.
pub enum ToolAction {
    Send { to: String, subject: String, body: String },
    FetchUnread,
    Search { query: String },
    MarkRead { uid: u32 },
    GetByUid { uid: u32 },
    ListMailboxes,
}

/// The error for a missing or non-string argument.
pub open spec fn missing_text(key: Seq<char>) -> Seq<char> {
    "missing '"@ + key + "'"@
}

/// The error for a missing or invalid UID argument.
pub open spec fn invalid_uid_text() -> Seq<char> {
    "missing or invalid 'uid'"@
}

/// The error for a tool name the server does not know.
pub open spec fn unknown_tool_text(name: Seq<char>) -> Seq<char> {
    "Unknown tool: "@ + name
}

/// The error a call of tool `name` with `args` is refused with, or `None`
/// when the call is accepted. String arguments are checked in the order the
/// tool lists them.
pub open spec fn call_error(name: Seq<char>, args: Seq<(String, ArgValue)>) -> Option<Seq<char>> {
    if name == "mail_send"@ {
        if arg_text(args, "to"@) is None {
            Some(missing_text("to"@))
        } else if arg_text(args, "subject"@) is None {
            Some(missing_text("subject"@))
        } else if arg_text(args, "body"@) is None {
            Some(missing_text("body"@))
        } else {
            None
        }
    } else if name == "mail_fetch_unread"@ || name == "mail_list_mailboxes"@ {
        None
    } else if name == "mail_search"@ {
        if arg_text(args, "query"@) is None {
            Some(missing_text("query"@))
        } else {
            None
        }
    } else if name == "mail_mark_read"@ || name == "mail_get_by_uid"@ {
        if arg_unsigned(args, "uid"@) is None {
            Some(invalid_uid_text())
        } else {
            None
        }
    } else {
        Some(unknown_tool_text(name))
    }
}

/// `a` is the action an accepted call of tool `name` with `args` asks for.
/// A UID is taken modulo 2^32.
pub open spec fn call_action(name: Seq<char>, args: Seq<(String, ArgValue)>, a: ToolAction) -> bool {
    if name == "mail_send"@ {
        a matches ToolAction::Send { to, subject, body } && Some(to@) == arg_text(args, "to"@) && Some(
            subject@,
        ) == arg_text(args, "subject"@) && Some(body@) == arg_text(args, "body"@)
    } else if name == "mail_fetch_unread"@ {
        a is FetchUnread
    } else if name == "mail_list_mailboxes"@ {
        a is ListMailboxes
    } else if name == "mail_search"@ {
        a matches ToolAction::Search { query } && Some(query@) == arg_text(args, "query"@)
    } else if name == "mail_mark_read"@ {
        a matches ToolAction::MarkRead { uid } && uid == (arg_unsigned(args, "uid"@)->0 as u32)
    } else {
        a matches ToolAction::GetByUid { uid } && uid == (arg_unsigned(args, "uid"@)->0 as u32)
    }
}

/// The six tool names differ from one another (they differ in length).
proof fn lemma_tool_names_distinct()
    ensures
        "mail_send"@.len() == 9,
        "mail_fetch_unread"@.len() == 17,
        "mail_search"@.len() == 11,
        "mail_mark_read"@.len() == 14,
        "mail_get_by_uid"@.len() == 15,
        "mail_list_mailboxes"@.len() == 19,
{
    reveal_strlit("mail_send");
    reveal_strlit("mail_fetch_unread");
    reveal_strlit("mail_search");
    reveal_strlit("mail_mark_read");
    reveal_strlit("mail_get_by_uid");
    reveal_strlit("mail_list_mailboxes");
}

fn text_error(prefix: &str, middle: &str, suffix: &str) -> (r: String)
    ensures
        r@ == prefix@ + middle@ + suffix@,
{
    let mut out = to_owned_string(prefix);
    out.append(middle);
    out.append(suffix);
    out
}

/// Checks a call of tool `name` and says what it asks for. A call is
/// refused with `missing '<arg>'` for the first string argument that is
/// absent or not a string, with `missing or invalid 'uid'` when the UID is
/// absent or not a non-negative integer, and with `Unknown tool: <name>` for
/// a name the server does not offer.
pub fn plan_tool_call(name: &str, args: &ToolArgs) -> (r: Result<ToolAction, String>)
    ensures
        match call_error(name@, args.fields@) {
            Some(e) => r matches Err(t) && t@ == e,
            None => r matches Ok(a) && call_action(name@, args.fields@, a),
        },
        name@ == "mail_get_by_uid"@ ==> match arg_lookup(args.fields@, "uid"@) {
            Some(ArgValue::Unsigned(n)) => n < 0x1_0000_0000 ==> (r matches Ok(
                ToolAction::GetByUid { uid },
            ) && uid == n),
            _ => r matches Err(t) && t@ == "missing or invalid 'uid'"@,
        },
        name@ == "mail_mark_read"@ ==> match arg_lookup(args.fields@, "uid"@) {
            Some(ArgValue::Unsigned(n)) => n < 0x1_0000_0000 ==> (r matches Ok(
                ToolAction::MarkRead { uid },
            ) && uid == n),
            _ => r matches Err(t) && t@ == "missing or invalid 'uid'"@,
        },
        name@ == "mail_search"@ ==> match arg_lookup(args.fields@, "query"@) {
            Some(ArgValue::Text(q)) => r matches Ok(ToolAction::Search { query }) && query@ == q@,
            _ => r matches Err(t) && t@ == "missing 'query'"@,
        },
        name@ == "mail_send"@ ==> match (
            arg_lookup(args.fields@, "to"@),
            arg_lookup(args.fields@, "subject"@),
            arg_lookup(args.fields@, "body"@),
        ) {
            (Some(ArgValue::Text(t)), Some(ArgValue::Text(s)), Some(ArgValue::Text(b))) => r matches Ok(
                ToolAction::Send { to, subject, body },
            ) && to@ == t@ && subject@ == s@ && body@ == b@,
            _ => r is Err,
        },
{
    proof {
        lemma_tool_names_distinct();
        reveal_strlit("missing or invalid 'uid'");
        reveal_strlit("missing '");
        reveal_strlit("query");
        reveal_strlit("'");
        reveal_strlit("missing 'query'");
    }
    if str_equal(name, "mail_send") {
        let to = match text_arg(args, "to") {
            Some(t) => t,
            None => {
                return Err(text_error("missing '", "to", "'"));
            },
        };
        let subject = match text_arg(args, "subject") {
            Some(t) => t,
            None => {
                return Err(text_error("missing '", "subject", "'"));
            },
        };
        let body = match text_arg(args, "body") {
            Some(t) => t,
            None => {
                return Err(text_error("missing '", "body", "'"));
            },
        };
        Ok(ToolAction::Send { to, subject, body })
    } else if str_equal(name, "mail_fetch_unread") {
        Ok(ToolAction::FetchUnread)
    } else if str_equal(name, "mail_search") {
        match text_arg(args, "query") {
            Some(query) => {
                Ok(ToolAction::Search { query })
            },
            None => Err(text_error("missing '", "query", "'")),
        }
    } else if str_equal(name, "mail_mark_read") {
        match unsigned_arg(args, "uid") {
            Some(n) => {
                Ok(ToolAction::MarkRead { uid: n as u32 })
            },
            None => Err(to_owned_string("missing or invalid 'uid'")),
        }
    } else if str_equal(name, "mail_get_by_uid") {
        match unsigned_arg(args, "uid") {
            Some(n) => {
                Ok(ToolAction::GetByUid { uid: n as u32 })
            },
            None => Err(to_owned_string("missing or invalid 'uid'")),
        }
    } else if str_equal(name, "mail_list_mailboxes") {
        Ok(ToolAction::ListMailboxes)
    } else {
        let mut t = to_owned_string("Unknown tool: ");
        t.append(name);
        Err(t)
    }
}

/// One block of a tool result.
pub struct ContentBlock {
    pub block_type: String,
    pub text: String,
}

/// The answer to a tool call: its text, and whether the call failed.
pub struct ToolCallResult {
    pub content: Vec<ContentBlock>,
    pub is_error: bool,
}

/// The answer to a tool call whose outcome is `outcome`: one text block
/// holding the outcome's text, flagged as an error when the call failed.
pub fn tool_call_result(outcome: Result<String, String>) -> (r: ToolCallResult)
    ensures
        r.content@.len() == 1,
        r.content@[0].block_type@ == "text"@,
        r.is_error == outcome is Err,
        match outcome {
            Ok(t) => r.content@[0].text == t,
            Err(t) => r.content@[0].text == t,
        },
{
    let (text, is_error) = match outcome {
        Ok(t) => (t, false),
        Err(t) => (t, true),
    };
    let mut content: Vec<ContentBlock> = Vec::new();
    content.push(ContentBlock { block_type: to_owned_string("text"), text });
    ToolCallResult { content, is_error }
}

/// What came of the mail operation a tool call asked for.
pub enum ActionOutcome {
    /// The message was sent.
    Sent,
    /// The message with this UID was marked read.
    Marked(u32),
    /// The result, already written as JSON.
    Json(String),
    /// No message has this UID.
    Missing(u32),
    /// The operation failed with this error text.
    Failed(String),
}

/// The text a tool call is answered with for an outcome, `Ok` on success.
pub open spec fn outcome_text(o: ActionOutcome) -> Result<Seq<char>, Seq<char>> {
    match o {
        ActionOutcome::Sent => Ok("Message sent"@),
        ActionOutcome::Marked(uid) => Ok(marked_read(uid)),
        ActionOutcome::Json(t) => Ok(t@),
        ActionOutcome::Missing(uid) => Err("Message UID "@ + decimal(uid as nat) + " not found"@),
        ActionOutcome::Failed(t) => Err(t@),
    }
}

/// The text a tool call is answered with for an outcome: `Message sent`,
/// `UID <uid> marked as read`, the JSON result, `Message UID <uid> not found`
/// (a failure), or the error text (a failure).
pub fn outcome_message(o: ActionOutcome) -> (r: Result<String, String>)
    ensures
        match (r, outcome_text(o)) {
            (Ok(t), Ok(s)) => t@ == s,
            (Err(t), Err(s)) => t@ == s,
            _ => false,
        },
{
    match o {
        ActionOutcome::Sent => Ok(to_owned_string("Message sent")),
        ActionOutcome::Marked(uid) => Ok(crate::cli::handlers::marked_read_text(uid)),
        ActionOutcome::Json(t) => Ok(t),
        ActionOutcome::Missing(uid) => {
            let mut t = to_owned_string("Message UID ");
            push_decimal(&mut t, uid as u64);
            t.append(" not found");
            Err(t)
        },
        ActionOutcome::Failed(t) => Err(t),
    }
}

/// `args` gives every required parameter of tool `d` a value of its type: a
/// string for a `string` parameter, a non-negative integer for an `integer` one.
pub open spec fn args_fit(d: ToolDefinitionView, args: Seq<(String, ArgValue)>) -> bool {
    forall|i: int, j: int|
        0 <= i < d.3.len() && 0 <= j < d.2.len() && #[trigger] d.2[j].0 == #[trigger] d.3[i] ==> {
            &&& d.2[j].1 == "string"@ ==> arg_text(args, d.3[i]) is Some
            &&& d.2[j].1 == "integer"@ ==> arg_unsigned(args, d.3[i]) is Some
        }
}

/// Every tool the server lists is one it accepts: a call of a listed tool
/// whose arguments give each required parameter a value of its declared type
/// is never refused.
pub proof fn lemma_listed_tools_are_callable(i: int, args: Seq<(String, ArgValue)>)
    requires
        0 <= i < tool_catalog().len(),
        args_fit(tool_catalog()[i], args),
    ensures
        call_error(tool_catalog()[i].0, args) is None,
{
    lemma_tool_names_distinct();
    let d = tool_catalog()[i];
    reveal_strlit("string");
    reveal_strlit("integer");
    if i == 0 {
        assert(d.2[0].0 == d.3[0]);
        assert(d.2[1].0 == d.3[1]);
        assert(d.2[2].0 == d.3[2]);
    } else if i == 2 {
        assert(d.2[0].0 == d.3[0]);
    } else if i == 3 || i == 4 {
        assert(d.2[0].0 == d.3[0]);
    }
}

/// A call of a tool the server does not list is refused with
/// `Unknown tool: <name>`.
pub proof fn lemma_unlisted_tools_are_refused(name: Seq<char>, args: Seq<(String, ArgValue)>)
    requires
        forall|i: int| 0 <= i < tool_catalog().len() ==> #[trigger] tool_catalog()[i].0 != name,
    ensures
        call_error(name, args) == Some(unknown_tool_text(name)),
{
    assert(tool_catalog()[0].0 != name);
    assert(tool_catalog()[1].0 != name);
    assert(tool_catalog()[2].0 != name);
    assert(tool_catalog()[3].0 != name);
    assert(tool_catalog()[4].0 != name);
    assert(tool_catalog()[5].0 != name);
}

} // verus!
