use std::sync::Arc;
use vstd::prelude::*;

use crate::mail::PanoramaMail;
use crate::text::{str_equal, to_owned_string, trim_text, trimmed};

verus! {

/// The JSON-RPC server: the mail client the tools act on and the logger.
pub struct McpServer<S: ?Sized, L: ?Sized> {
    mail: Arc<PanoramaMail<S>>,
    logger: Arc<L>,
}

impl<S: ?Sized, L: ?Sized> McpServer<S, L> {
    pub closed spec fn spec_mail(&self) -> Arc<PanoramaMail<S>> {
        self.mail
    }

    pub closed spec fn spec_logger(&self) -> Arc<L> {
        self.logger
    }

    /// A server over `mail` that logs to `logger`.
    pub fn new(mail: Arc<PanoramaMail<S>>, logger: Arc<L>) -> (r: Self)
        ensures
            r.spec_mail() == mail,
            r.spec_logger() == logger,
    {
        McpServer { mail, logger }
    }

    /// The mail client the tools act on.
    pub fn mail(&self) -> (r: &Arc<PanoramaMail<S>>)
        ensures
            *r == self.spec_mail(),
    {
        &self.mail
    }

    /// The logger.
    pub fn logger(&self) -> (r: &Arc<L>)
        ensures
            *r == self.spec_logger(),
    {
        &self.logger
    }
}

/// The JSON-RPC error code for a line that is not a valid request.
pub const PARSE_ERROR: i64 = -32700;

/// The JSON-RPC error code for a method the server does not have.
pub const METHOD_NOT_FOUND: i64 = -32601;

/// The protocol version the server announces.
pub const PROTOCOL_VERSION: &'static str = "2024-11-05";

/// The name the server announces.
pub const SERVER_NAME: &'static str = "panorama-mail";

/// The version the server announces (the program's version).
pub const SERVER_VERSION: &'static str = "0.1.0";

/// The answer to `initialize`: the protocol version, the capabilities the
/// server has (each announced with an empty options object), and the
/// server's name and version.
pub struct InitializeResult {
    pub protocol_version: String,
    pub capabilities: Vec<String>,
    pub server_name: String,
    pub server_version: String,
}

/// The answer to `initialize`: protocol `2024-11-05`, the one capability
/// `tools`, and the server `panorama-mail` at version `SERVER_VERSION`.
pub fn initialize_result() -> (r: InitializeResult)
    ensures
        r.protocol_version@ == PROTOCOL_VERSION@,
        r.protocol_version@ == "2024-11-05"@,
        r.capabilities@.map_values(|c: String| c@) == seq!["tools"@],
        r.server_name@ == SERVER_NAME@,
        r.server_name@ == "panorama-mail"@,
        r.server_version@ == SERVER_VERSION@,
        r.server_version@ == "0.1.0"@,
{
    let mut capabilities: Vec<String> = Vec::new();
    capabilities.push(to_owned_string("tools"));
    assert(capabilities@.map_values(|c: String| c@) =~= seq!["tools"@]);
    InitializeResult {
        protocol_version: to_owned_string(PROTOCOL_VERSION),
        capabilities,
        server_name: to_owned_string(SERVER_NAME),
        server_version: to_owned_string(SERVER_VERSION),
    }
}

/// How the server answers a request.
pub enum McpRoute {
    /// A notification (a request without an id): no answer at all.
    Silent,
    /// Answer with the protocol version, capabilities and server name.
    Initialize,
    /// Answer with an empty result.
    Ping,
    /// Answer with the tool catalogue.
    ListTools,
    /// Run the tool named in the parameters and answer with its result.
    CallTool,
    /// Answer with this error code and message.
    Error { code: i64, message: String },
}

/// The error message for a method the server does not have.
pub open spec fn method_not_found_text(method: Seq<char>) -> Seq<char> {
    "Method not found: "@ + method
}

/// How the server answers a request for `method`, with or without an id.
pub open spec fn route_of(has_id: bool, method: Seq<char>, r: McpRoute) -> bool {
    if !has_id {
        r is Silent
    } else if method == "initialize"@ {
        r is Initialize
    } else if method == "ping"@ {
        r is Ping
    } else if method == "tools/list"@ {
        r is ListTools
    } else if method == "tools/call"@ {
        r is CallTool
    } else {
        r matches McpRoute::Error { code, message } && code == METHOD_NOT_FOUND && message@
            == method_not_found_text(method)
    }
}

/// Decides how to answer a request: a notification is never answered;
/// `initialize`, `ping`, `tools/list` and `tools/call` are served; any other
/// method gets a method-not-found error naming it.
pub fn route(has_id: bool, method: &str) -> (r: McpRoute)
    ensures
        route_of(has_id, method@, r),
        !has_id ==> r is Silent,
        has_id && method@ == "initialize"@ ==> r is Initialize,
        has_id && method@ == "ping"@ ==> r is Ping,
        has_id && method@ == "tools/list"@ ==> r is ListTools,
        has_id && method@ == "tools/call"@ ==> r is CallTool,
        has_id && method@ != "initialize"@ && method@ != "ping"@ && method@ != "tools/list"@
            && method@ != "tools/call"@ ==> (r matches McpRoute::Error { code, message } && code
            == -32601 && message@ == "Method not found: "@ + method@),
{
    proof {
        reveal_strlit("initialize");
        reveal_strlit("ping");
        reveal_strlit("tools/list");
        reveal_strlit("tools/call");
        assert("initialize"@[0] != "tools/list"@[0]);
        assert("initialize"@[0] != "tools/call"@[0]);
        assert("tools/list"@[6] != "tools/call"@[6]);
    }
    if !has_id {
        McpRoute::Silent
    } else if str_equal(method, "initialize") {
        McpRoute::Initialize
    } else if str_equal(method, "ping") {
        McpRoute::Ping
    } else if str_equal(method, "tools/list") {
        McpRoute::ListTools
    } else if str_equal(method, "tools/call") {
        McpRoute::CallTool
    } else {
        let mut message = to_owned_string("Method not found: ");
        message.append(method);
        McpRoute::Error { code: METHOD_NOT_FOUND, message }
    }
}

/// The error message for a line that is not a valid request.
pub fn parse_error_message(detail: &str) -> (r: String)
    ensures
        r@ == "Parse error: "@ + detail@,
{
    let mut message = to_owned_string("Parse error: ");
    message.append(detail);
    message
}

/// What reading one line of standard input gave.
pub enum ReadOutcome {
    /// The input has ended.
    End,
    /// Reading failed, with the error's text.
    Failed(String),
    /// A line, as read (with its line end, if any).
    Line(String),
}

/// What the server does after reading a line.
pub enum LineStep {
    /// Stop serving.
    Stop,
    /// Log this error message, then stop serving.
    StopWithError(String),
    /// Nothing to answer: read the next line.
    Skip,
    /// Handle this request text (the line without surrounding white space).
    Handle(String),
}

/// What the server does after a read: stop at the end of input; log
/// `stdin error: <error>` and stop when reading fails; skip a line that is
/// empty or white space only; otherwise handle the line without its leading
/// and trailing white space.
pub fn next_line_step(read: ReadOutcome) -> (r: LineStep)
    ensures
        match read {
            ReadOutcome::End => r is Stop,
            ReadOutcome::Failed(e) => r matches LineStep::StopWithError(m) && m@ == "stdin error: "@
                + e@,
            ReadOutcome::Line(l) => if trimmed(l@).len() == 0 {
                r is Skip
            } else {
                r matches LineStep::Handle(t) && t@ == trimmed(l@)
            },
        },
{
    match read {
        ReadOutcome::End => LineStep::Stop,
        ReadOutcome::Failed(e) => {
            let mut m = to_owned_string("stdin error: ");
            m.append(e.as_str());
            LineStep::StopWithError(m)
        },
        ReadOutcome::Line(l) => {
            let t = trim_text(l.as_str());
            if t.as_str().unicode_len() == 0 {
                LineStep::Skip
            } else {
                LineStep::Handle(t)
            }
        },
    }
}

/// The parts of a well-formed request that decide how it is answered.
pub struct RequestHead {
    pub has_id: bool,
    pub method: String,
}

/// How the server answers a request text, given what parsing it as a
/// JSON-RPC request gave: a parse error is answered with the parse-error
/// code and `Parse error: <detail>`; a request is routed as in `route`.
pub fn answer(parsed: Result<RequestHead, String>) -> (r: McpRoute)
    ensures
        match parsed {
            Err(e) => r matches McpRoute::Error { code, message } && code == PARSE_ERROR && message@
                == "Parse error: "@ + e@,
            Ok(h) => route_of(h.has_id, h.method@, r),
        },
        parsed is Err ==> (r matches McpRoute::Error { code, .. } && code == -32700),
{
    match parsed {
        Err(e) => McpRoute::Error { code: PARSE_ERROR, message: parse_error_message(e.as_str()) },
        Ok(h) => route(h.has_id, h.method.as_str()),
    }
}

} // verus!
