use ring0::agent::event::Event;
use ring0::agent::execution_context::ExecutionContext;
use ring0::agent::tools::{ToolResult, ToolSpec, ToolUse};
use ring0::agent::{check_response, prepare_llm_request, tool_result_message, DEFAULT_MAX_TOKEN};
use ring0::anthropic::common::{ContentBlockParam, MessageParam, Role};
use ring0::anthropic::http_client::Response;
use ring0::anthropic::response::{Message, ResponseType, ResponseUsage, StopReason};
use serde_json::Value;
use std::collections::HashMap;

fn usage() -> ResponseUsage {
    ResponseUsage {
        input_tokens: 11,
        cache_creation_input_tokens: 0,
        cache_read_input_tokens: 0,
        cache_creation: None,
        output_tokens: 29,
        service_tier: "standard".to_string(),
        inference_geo: None,
    }
}

fn message(content: Vec<ContentBlockParam>, stop: Option<StopReason>) -> Message {
    Message {
        id: "msg_1".to_string(),
        container: None,
        content,
        model: "test-model".to_string(),
        role: Role::Assistant,
        stop_details: None,
        stop_reason: stop,
        stop_sequence: None,
        kind: ResponseType::Message,
        usage: usage(),
    }
}

fn tool_use(id: &str, name: &str) -> ToolUse {
    ToolUse { id: id.to_string(), name: name.to_string(), input: Value::Null }
}

#[test]
fn new_context_starts_at_turn_one_and_goes_on() {
    let c = ExecutionContext::new(3, "20250101-000000".to_string());
    assert_eq!(c.turn(), 1);
    assert_eq!(c.max_turn(), 3);
    assert_eq!(c.run(), "20250101-000000");
    assert_eq!(c.logger().log_filename, "ring0.jsonl");
    assert!(c.keep_going());
    assert!(c.final_message().is_none());
    assert!(c.last_tool_calls().is_none());
    assert!(c.messages().is_empty());
}

#[test]
fn answer_without_tool_use_ends_the_chat() {
    let mut c = ExecutionContext::new(100, "r".to_string());
    c.add_event(Event::User(MessageParam::user("hi")));
    assert!(c.keep_going());
    let answer = message(vec![ContentBlockParam::text("hello")], Some(StopReason::EndTurn));
    c.add_event(Event::Llm(answer));
    assert!(!c.keep_going());
    assert_eq!(c.final_message(), Some("hello".to_string()));
    assert!(c.last_tool_calls().is_none());
}

#[test]
fn tool_request_keeps_the_chat_going() {
    let mut c = ExecutionContext::new(100, "r".to_string());
    c.add_event(Event::User(MessageParam::user("add")));
    let m = message(
        vec![
            ContentBlockParam::text("let me compute"),
            ContentBlockParam::ToolUse(tool_use("t1", "calculator")),
            ContentBlockParam::ToolUse(tool_use("t2", "search_web")),
        ],
        Some(StopReason::ToolUse),
    );
    c.add_event(Event::Llm(m));
    assert!(c.keep_going());
    let calls = c.last_tool_calls().unwrap();
    assert_eq!(calls.len(), 2);
    assert_eq!(calls[0].id, "t1");
    assert_eq!(calls[1].name, "search_web");
    let messages = c.messages();
    assert_eq!(messages.len(), 2);
    assert_eq!(messages[0].role, Role::User);
    assert_eq!(messages[1].role, Role::Assistant);
    assert_eq!(messages[1].content.len(), 3);
}

#[test]
fn turns_run_out() {
    let mut c = ExecutionContext::new(3, "r".to_string());
    assert!(c.keep_going());
    c.inc_step();
    assert_eq!(c.turn(), 2);
    assert!(c.keep_going());
    c.inc_step();
    assert_eq!(c.turn(), 3);
    assert!(!c.keep_going());
}

#[test]
fn message_text_joins_blocks_by_line() {
    let m = message(
        vec![ContentBlockParam::text("a"), ContentBlockParam::Unknown, ContentBlockParam::text("b")],
        None,
    );
    assert_eq!(m.text(), "a\nUnknown\nb");
    assert!(!m.next_tool_use());
    assert_eq!(m.usage_io_tokens(), (11, 29));
    assert_eq!(m.contents().len(), 3);
    assert!(m.tool_calls().is_empty());
    let p = m.message_param();
    assert_eq!(p.role, Role::Assistant);
    assert_eq!(p.content.len(), 3);
}

#[test]
fn results_become_one_user_message() {
    assert!(tool_result_message(vec![]).is_none());
    let m = tool_result_message(vec![
        ToolResult::new("t1".to_string(), "3".to_string()),
        ToolResult::new("t2".to_string(), "none".to_string()),
    ])
    .unwrap();
    assert_eq!(m.role, Role::User);
    assert_eq!(m.content.len(), 2);
    match &m.content[1] {
        ContentBlockParam::ToolResult(r) => {
            assert_eq!(r.tool_use_id, "t2");
            assert_eq!(r.content, "none");
        }
        _ => panic!("not a tool result"),
    }
}

#[test]
fn request_carries_the_conversation() {
    let mut c = ExecutionContext::new(10, "r".to_string());
    c.add_event(Event::User(MessageParam::user("question")));
    let spec = ToolSpec { name: "calculator", description: Some("math"), input_schema: Value::Null };
    let r = prepare_llm_request(&c, "test-model", "be brief", vec![spec]);
    assert_eq!(r.model, "test-model");
    assert_eq!(r.max_tokens, DEFAULT_MAX_TOKEN);
    assert_eq!(r.messages.len(), 1);
    assert_eq!(r.system.len(), 1);
    match &r.system[0] {
        ContentBlockParam::Text { text } => assert_eq!(text, "be brief"),
        _ => panic!("not a text block"),
    }
    assert!(r.output_config.is_none());
    assert_eq!(r.tools.len(), 1);
    assert_eq!(r.tools[0].name, "calculator");
}

fn response(status: u16, is_success: bool, body: &str) -> Response {
    Response { status, is_success, headers: HashMap::new(), raw_body: body.to_string() }
}

#[test]
fn failed_call_is_reported_with_status_and_body() {
    match check_response(response(429, false, "slow down")) {
        Err(e) => assert_eq!(e, "응답 오류 status: 429, response: slow down"),
        Ok(_) => panic!("accepted a failed call"),
    }
    match check_response(response(200, true, "{}")) {
        Ok(r) => assert_eq!(r.raw_body, "{}"),
        Err(_) => panic!("refused a successful call"),
    }
}

#[test]
fn context_logs_with_its_run_and_turn() {
    let mut context = ExecutionContext::new(10, "20250102-030405".to_string());
    context.inc_step();
    let body: Value = serde_json::from_str("{\"max_tokens\":1024}").unwrap();
    let r = context.log_request(&body, "ts");
    assert_eq!(r.run, "20250102-030405");
    assert_eq!(r.turn, 2);
    assert_eq!(r.ts, "ts");
    let r = context.log_error("boom", "ts2");
    assert_eq!(r.turn, 2);
    assert_eq!(r.body.direction().as_str(), "err");
    let r = context.log_response(&response(500, false, "oops"), "ts3");
    assert_eq!(r.body.direction().as_str(), "res");
    assert_eq!(r.run, "20250102-030405");
}

#[test]
fn a_step_records_the_answer_and_the_tool_results() {
    let mut c = ExecutionContext::new(100, "r".to_string());
    c.add_event(Event::User(MessageParam::user("add")));
    let m = message(
        vec![ContentBlockParam::ToolUse(tool_use("t1", "calculator"))],
        Some(StopReason::ToolUse),
    );
    let calls = c.receive_answer(m).unwrap();
    assert_eq!(calls.len(), 1);
    assert_eq!(calls[0].id, "t1");
    let results = tool_result_message(vec![ToolResult::new("t1".to_string(), "42".to_string())]);
    c.end_step(results);
    assert_eq!(c.turn(), 2);
    let messages = c.messages();
    assert_eq!(messages.len(), 3);
    assert_eq!(messages[2].role, Role::User);
    assert!(c.keep_going());

    let answer = message(vec![ContentBlockParam::text("42")], Some(StopReason::EndTurn));
    assert!(c.receive_answer(answer).is_none());
    c.end_step(None);
    assert_eq!(c.turn(), 3);
    assert_eq!(c.messages().len(), 4);
    assert!(!c.keep_going());
    assert_eq!(c.final_message(), Some("42".to_string()));
}

#[test]
fn other_blocks_read_as_their_debug_form() {
    let input: Value = serde_json::from_str("{\"a\":1,\"b\":\"x\\\"y\"}").unwrap();
    let use_block = ContentBlockParam::ToolUse(ToolUse {
        id: "toolu_\"1\"".to_string(),
        name: "calc\n".to_string(),
        input,
    });
    let result_block = ContentBlockParam::ToolResult(ToolResult::new("t1".to_string(), "안녕 \t!".to_string()));
    let text_block = ContentBlockParam::text("plain");
    let expected_use = format!("{:?}", use_block);
    let expected_result = format!("{:?}", result_block);
    assert_eq!(ring0::anthropic::response::debug_string(&use_block), expected_use);
    assert_eq!(ring0::anthropic::response::debug_string(&result_block), expected_result);
    assert_eq!(ring0::anthropic::response::debug_string(&text_block), format!("{:?}", text_block));
    assert_eq!(
        ring0::anthropic::response::debug_string(&ContentBlockParam::Unknown),
        "Unknown"
    );
    assert_eq!(expected_result, "ToolResult(ToolResult { tool_use_id: \"t1\", content: \"안녕 \\t!\" })");
    let m = message(vec![text_block, use_block, result_block], None);
    assert_eq!(m.text(), format!("plain\n{}\n{}", expected_use, expected_result));
}

#[test]
fn last_event_is_the_latest_one() {
    let mut c = ExecutionContext::new(5, "r".to_string());
    assert!(c.last_event().is_none());
    c.add_event(Event::User(MessageParam::user("hi")));
    assert!(matches!(c.last_event(), Some(Event::User(_))));
}
