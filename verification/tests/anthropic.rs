use ring0::anthropic::call_logger::{Direction, HttpCallLogger, LogBody, LogValue, LOG_VERSION};
use ring0::anthropic::http_client::Response;
use std::collections::HashMap;
use ring0::anthropic::common::{ContentBlockParam, MessageParam, Role};
use ring0::anthropic::http_client::HttpClient;
use ring0::anthropic::request::Request;
use ring0::anthropic::tools::ToolResult;

#[test]
fn new_request_holds_one_user_text() {
    let request = Request::new("test-model", 1024, "안녕");
    assert_eq!(request.model, "test-model");
    assert_eq!(request.max_tokens, 1024);
    assert_eq!(request.messages.len(), 1);
    assert_eq!(request.messages[0].role, Role::User);
    assert_eq!(request.messages[0].content.len(), 1);
    match &request.messages[0].content[0] {
        ContentBlockParam::Text { text } => assert_eq!(text, "안녕"),
        _ => panic!("not a text block"),
    }
    assert!(request.system.is_empty());
    assert!(request.output_config.is_none());
    assert!(request.tools.is_empty());
}

#[test]
fn user_message_is_one_text_block() {
    let m = MessageParam::user("question");
    assert_eq!(m.role, Role::User);
    assert_eq!(m.content.len(), 1);
    match &m.content[0] {
        ContentBlockParam::Text { text } => assert_eq!(text, "question"),
        _ => panic!("not a text block"),
    }
    let n = MessageParam::new(Role::Assistant, vec![]);
    assert_eq!(n.role, Role::Assistant);
}

#[test]
fn logger_records_json_bodies_parsed_and_others_raw() {
    assert_eq!(HttpCallLogger::new().log_filename, "ring0.jsonl");
    let (body, raw) = HttpCallLogger::response_body("{\"a\":1}");
    assert_eq!(body.unwrap()["a"], 1);
    assert!(raw.is_none());
    let (body, raw) = HttpCallLogger::response_body("Bad Gateway");
    assert!(body.is_none());
    assert_eq!(raw.unwrap(), "Bad Gateway");
}

#[test]
fn client_keeps_its_key() {
    let c = HttpClient::new("sk-test");
    assert_eq!(c.api_key.as_ref(), "sk-test");
    let r = ToolResult::new("id".to_string(), "out".to_string());
    assert_eq!(r.tool_use_id, "id");
    assert_eq!(r.content, "out");
}

#[test]
fn records_carry_run_turn_time_and_direction() {
    let logger = HttpCallLogger::new();
    let body: serde_json::Value = serde_json::from_str("{\"model\":\"m\"}").unwrap();
    let r = logger.request(&body, "20250101-000000", 3, "2025-01-01T00:00:00Z");
    assert_eq!(r.v, LOG_VERSION);
    assert_eq!(r.v, 1);
    assert_eq!(r.run, "20250101-000000");
    assert_eq!(r.turn, 3);
    assert_eq!(r.ts, "2025-01-01T00:00:00Z");
    assert_eq!(r.body.direction().as_str(), "req");
    match r.body {
        LogBody::Request(v) => assert_eq!(v, body),
        _ => panic!("not a request record"),
    }

    let r = logger.error("호출 오류", "run", 7, "t");
    assert_eq!(r.body.direction(), Direction::Error);
    assert_eq!(r.body.direction().as_str(), "err");
    assert_eq!(r.turn, 7);
    match r.body {
        LogBody::Error(m) => assert_eq!(m, "호출 오류"),
        _ => panic!("not an error record"),
    }
}

#[test]
fn response_records_keep_status_headers_and_body() {
    let logger = HttpCallLogger::new();
    let mut headers = HashMap::new();
    headers.insert("request-id".to_string(), "req_1".to_string());
    let response = Response { status: 200, is_success: true, headers, raw_body: "{\"id\":\"msg\"}".to_string() };
    let r = logger.response(&response, "run", 2, "t");
    assert_eq!(r.body.direction().as_str(), "res");
    match r.body {
        LogBody::Response { status, headers, body, body_raw } => {
            assert_eq!(status, 200);
            assert_eq!(headers.get("request-id").unwrap(), "req_1");
            assert_eq!(body.unwrap()["id"], "msg");
            assert!(body_raw.is_none());
        }
        _ => panic!("not a response record"),
    }

    let response = Response { status: 502, is_success: false, headers: HashMap::new(), raw_body: "Bad Gateway".to_string() };
    let r = logger.response(&response, "run", 2, "t");
    match r.body {
        LogBody::Response { status, headers, body, body_raw } => {
            assert_eq!(status, 502);
            assert!(headers.is_empty());
            assert!(body.is_none());
            assert_eq!(body_raw.unwrap(), "Bad Gateway");
        }
        _ => panic!("not a response record"),
    }
}

#[test]
fn log_lines_lay_out_their_fields() {
    let logger = HttpCallLogger::new();
    let body: serde_json::Value = serde_json::from_str("{\"model\":\"m\"}").unwrap();
    let r = logger.request(&body, "run1", 4, "ts1");
    let keys: Vec<&str> = r.fields().iter().map(|(k, _)| *k).collect();
    assert_eq!(keys, vec!["v", "run", "turn", "ts", "dir", "body"]);
    let fields = r.fields();
    assert!(matches!(fields[0].1, LogValue::Number(1)));
    assert!(matches!(fields[2].1, LogValue::Number(4)));
    assert!(matches!(fields[4].1, LogValue::Text("req")));
    assert!(matches!(fields[5].1, LogValue::Json(v) if *v == body));

    let response = Response { status: 502, is_success: false, headers: HashMap::new(), raw_body: "Bad Gateway".to_string() };
    let r = logger.response(&response, "run1", 4, "ts2");
    let fields = r.fields();
    let keys: Vec<&str> = fields.iter().map(|(k, _)| *k).collect();
    assert_eq!(keys, vec!["v", "run", "turn", "ts", "dir", "status", "headers", "body", "body_raw"]);
    assert!(matches!(fields[4].1, LogValue::Text("res")));
    assert!(matches!(fields[5].1, LogValue::Number(502)));
    assert!(matches!(fields[7].1, LogValue::Null));
    assert!(matches!(fields[8].1, LogValue::Text("Bad Gateway")));

    let r = logger.error("boom", "run1", 4, "ts3");
    let fields = r.fields();
    assert_eq!(fields.len(), 6);
    assert!(matches!(fields[4].1, LogValue::Text("err")));
    assert!(matches!(fields[5].1, LogValue::Text("boom")));
}
