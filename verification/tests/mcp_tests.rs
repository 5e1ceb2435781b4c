use std::sync::Arc;

use panorama_mail::mail::{MailConfig, PanoramaMail};
use panorama_mail::mcp::server::{
    parse_error_message, route, McpRoute, McpServer, METHOD_NOT_FOUND, PARSE_ERROR,
    PROTOCOL_VERSION, SERVER_NAME,
};
use panorama_mail::mcp::tools::{
    build_tool_definitions, outcome_message, plan_tool_call, tool_call_result, ActionOutcome,
    ArgValue, ToolAction, ToolArgs,
};

fn args(fields: Vec<(&str, ArgValue)>) -> ToolArgs {
    ToolArgs { fields: fields.into_iter().map(|(k, v)| (k.to_string(), v)).collect() }
}

fn text(s: &str) -> ArgValue {
    ArgValue::Text(s.to_string())
}

#[test]
fn catalogue_lists_the_six_tools() {
    let defs = build_tool_definitions();
    let names: Vec<&str> = defs.iter().map(|d| d.name.as_str()).collect();
    assert_eq!(
        names,
        vec![
            "mail_send",
            "mail_fetch_unread",
            "mail_search",
            "mail_mark_read",
            "mail_get_by_uid",
            "mail_list_mailboxes"
        ]
    );
    assert_eq!(defs[0].required, vec!["to", "subject", "body"]);
    assert_eq!(defs[3].params[0].kind, "integer");
    assert!(defs[1].params.is_empty() && defs[1].required.is_empty());
}

#[test]
fn every_listed_tool_accepts_its_required_arguments() {
    for d in build_tool_definitions() {
        let fields = d
            .params
            .iter()
            .map(|p| {
                let v = if p.kind == "integer" { ArgValue::Unsigned(5) } else { text("v") };
                (p.name.as_str(), v)
            })
            .collect();
        assert!(plan_tool_call(&d.name, &args(fields)).is_ok(), "tool {}", d.name);
    }
}

#[test]
fn send_arguments_are_checked_in_order() {
    let e = plan_tool_call("mail_send", &args(vec![])).err().unwrap();
    assert_eq!(e, "missing 'to'");
    let e = plan_tool_call("mail_send", &args(vec![("to", text("a@b"))])).err().unwrap();
    assert_eq!(e, "missing 'subject'");
    let e = plan_tool_call(
        "mail_send",
        &args(vec![("to", text("a@b")), ("subject", text("s")), ("body", ArgValue::Unsigned(1))]),
    )
    .err()
    .unwrap();
    assert_eq!(e, "missing 'body'");
    match plan_tool_call(
        "mail_send",
        &args(vec![("body", text("b")), ("to", text("a@b")), ("subject", text("s"))]),
    ) {
        Ok(ToolAction::Send { to, subject, body }) => {
            assert_eq!((to.as_str(), subject.as_str(), body.as_str()), ("a@b", "s", "b"))
        }
        _ => panic!("send not planned"),
    }
}

#[test]
fn uid_arguments() {
    assert_eq!(
        plan_tool_call("mail_mark_read", &args(vec![("uid", text("5"))])).err().unwrap(),
        "missing or invalid 'uid'"
    );
    assert_eq!(
        plan_tool_call("mail_get_by_uid", &args(vec![("uid", ArgValue::Other)])).err().unwrap(),
        "missing or invalid 'uid'"
    );
    match plan_tool_call("mail_mark_read", &args(vec![("uid", ArgValue::Unsigned(4294967296 + 9))])) {
        Ok(ToolAction::MarkRead { uid }) => assert_eq!(uid, 9),
        _ => panic!("mark read not planned"),
    }
    match plan_tool_call("mail_get_by_uid", &args(vec![("uid", ArgValue::Unsigned(12))])) {
        Ok(ToolAction::GetByUid { uid }) => assert_eq!(uid, 12),
        _ => panic!("get not planned"),
    }
}

#[test]
fn other_tools() {
    assert!(matches!(plan_tool_call("mail_fetch_unread", &args(vec![])), Ok(ToolAction::FetchUnread)));
    assert!(matches!(plan_tool_call("mail_list_mailboxes", &args(vec![])), Ok(ToolAction::ListMailboxes)));
    assert_eq!(plan_tool_call("mail_search", &args(vec![])).err().unwrap(), "missing 'query'");
    match plan_tool_call("mail_search", &args(vec![("query", text("bob"))])) {
        Ok(ToolAction::Search { query }) => assert_eq!(query, "bob"),
        _ => panic!("search not planned"),
    }
    assert_eq!(plan_tool_call("mail_delete", &args(vec![])).err().unwrap(), "Unknown tool: mail_delete");
    assert_eq!(plan_tool_call("", &args(vec![])).err().unwrap(), "Unknown tool: ");
}

#[test]
fn results_and_outcomes() {
    assert_eq!(outcome_message(ActionOutcome::Sent), Ok("Message sent".to_string()));
    assert_eq!(outcome_message(ActionOutcome::Marked(4)), Ok("UID 4 marked as read".to_string()));
    assert_eq!(outcome_message(ActionOutcome::Json("[]".into())), Ok("[]".to_string()));
    assert_eq!(outcome_message(ActionOutcome::Missing(4)), Err("Message UID 4 not found".to_string()));
    assert_eq!(outcome_message(ActionOutcome::Failed("x".into())), Err("x".to_string()));
    let r = tool_call_result(Ok("fine".to_string()));
    assert!(!r.is_error && r.content.len() == 1 && r.content[0].block_type == "text" && r.content[0].text == "fine");
    let r = tool_call_result(Err("bad".to_string()));
    assert!(r.is_error && r.content[0].text == "bad");
}

#[test]
fn routing() {
    assert!(matches!(route(false, "initialize"), McpRoute::Silent));
    assert!(matches!(route(false, "tools/call"), McpRoute::Silent));
    assert!(matches!(route(true, "initialize"), McpRoute::Initialize));
    assert!(matches!(route(true, "ping"), McpRoute::Ping));
    assert!(matches!(route(true, "tools/list"), McpRoute::ListTools));
    assert!(matches!(route(true, "tools/call"), McpRoute::CallTool));
    match route(true, "resources/list") {
        McpRoute::Error { code, message } => {
            assert_eq!(code, METHOD_NOT_FOUND);
            assert_eq!(code, -32601);
            assert_eq!(message, "Method not found: resources/list");
        }
        _ => panic!("unknown method served"),
    }
    assert_eq!(parse_error_message("EOF"), "Parse error: EOF");
    assert_eq!(PARSE_ERROR, -32700);
    assert_eq!(PROTOCOL_VERSION, "2024-11-05");
    assert_eq!(SERVER_NAME, "panorama-mail");
}

#[test]
fn server_holds_client_and_logger() {
    let config = MailConfig {
        imap_host: "h".into(),
        imap_port: 1,
        smtp_host: "h".into(),
        smtp_port: 2,
        username: "u".into(),
        password: "p".into(),
        mailbox: "INBOX".into(),
    };
    let mail: Arc<PanoramaMail<str>> = Arc::new(PanoramaMail::new(config));
    let logger = Arc::new(panorama_mail::logger::LoguruLogger::default());
    let server = McpServer::new(Arc::clone(&mail), Arc::clone(&logger));
    assert!(Arc::ptr_eq(server.mail(), &mail));
    assert!(Arc::ptr_eq(server.logger(), &logger));
}

use panorama_mail::mcp::server::{answer, next_line_step, LineStep, ReadOutcome, RequestHead};

#[test]
fn line_steps() {
    assert!(matches!(next_line_step(ReadOutcome::End), LineStep::Stop));
    match next_line_step(ReadOutcome::Failed("broken pipe".into())) {
        LineStep::StopWithError(m) => assert_eq!(m, "stdin error: broken pipe"),
        _ => panic!("read error not reported"),
    }
    assert!(matches!(next_line_step(ReadOutcome::Line("  \r\n".into())), LineStep::Skip));
    assert!(matches!(next_line_step(ReadOutcome::Line("".into())), LineStep::Skip));
    match next_line_step(ReadOutcome::Line("  {\"id\":1}\n".into())) {
        LineStep::Handle(t) => assert_eq!(t, "{\"id\":1}"),
        _ => panic!("request skipped"),
    }
}

#[test]
fn answers() {
    match answer(Err("expected value at line 1 column 1".into())) {
        McpRoute::Error { code, message } => {
            assert_eq!(code, -32700);
            assert_eq!(message, "Parse error: expected value at line 1 column 1");
        }
        _ => panic!("parse error not answered"),
    }
    assert!(matches!(answer(Ok(RequestHead { has_id: false, method: "ping".into() })), McpRoute::Silent));
    assert!(matches!(answer(Ok(RequestHead { has_id: true, method: "ping".into() })), McpRoute::Ping));
}

#[test]
fn initialize_answer() {
    let r = panorama_mail::mcp::server::initialize_result();
    assert_eq!(r.protocol_version, "2024-11-05");
    assert_eq!(r.capabilities, vec!["tools".to_string()]);
    assert_eq!(r.server_name, "panorama-mail");
    assert_eq!(r.server_version, "0.1.0");
    assert!(matches!(
        next_line_step(ReadOutcome::Line("not json\n".into())),
        LineStep::Handle(t) if t == "not json"
    ));
}
