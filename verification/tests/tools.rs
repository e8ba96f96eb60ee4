use ring0::agent::tools::list_files::directory_listing;
use ring0::agent::tools::search_web::{SearchWebInput, Topic};
use ring0::agent::tools::tavily_client::TavilyClient;
use ring0::agent::tools::unzip_file::extraction_summary;
use ring0::agent::tools::{ToolError, ToolUse};
use ring0::anthropic::tools::ToolUse as FirstToolUse;
use ring0::anthropic::tools::tavily::Topic as FirstTopic;
use serde_json::Value;

fn tool_use(name: &str) -> ToolUse {
    ToolUse { id: "toolu_1".to_string(), name: name.to_string(), input: Value::Null }
}

#[test]
fn find_tool_takes_the_first_tool_of_that_name() {
    let names = ["calculator", "search_web", "search_web"];
    assert_eq!(tool_use("search_web").find_tool(&names), Some(1));
    assert_eq!(tool_use("calculator").find_tool(&names), Some(0));
    assert_eq!(tool_use("unzip").find_tool(&names), None);
    assert_eq!(tool_use("x").find_tool(&[]), None);
    let first = FirstToolUse { id: "i".to_string(), name: "b".to_string(), input: Value::Null };
    assert_eq!(first.find_tool(&["a", "b"]), Some(1));
}

#[test]
fn failures_keep_the_request_id() {
    let r = tool_use("nope").error_result("cannot find tool");
    assert_eq!(r.tool_use_id, "toolu_1");
    assert_eq!(r.content, "cannot find tool");
    let e = ToolError { tool_use_id: "toolu_2".to_string(), cause: "divide by zero".to_string() };
    let r = e.tool_result();
    assert_eq!(r.tool_use_id, "toolu_2");
    assert_eq!(r.content, "divide by zero");
    assert_eq!(e.to_string(), "id: toolu_2, cause: divide by zero");
}

#[test]
fn listing_puts_directories_before_files() {
    let dirs = vec!["agent".to_string(), "rag".to_string()];
    let files = vec!["lib.rs".to_string()];
    assert_eq!(
        directory_listing("src", &dirs, &files),
        "Directory: src\n  agent\n  rag\n  lib.rs"
    );
    assert_eq!(directory_listing("empty", &vec![], &vec![]), "Directory: empty\n");
}

#[test]
fn summary_names_at_most_twenty_files() {
    let few = vec!["/tmp/x/a".to_string(), "/tmp/x/b".to_string()];
    assert_eq!(
        extraction_summary(&few, "/tmp/x"),
        "Extracted 2 files to /tmp/x\n\nContents:\n  - /tmp/x/a\n  - /tmp/x/b\n"
    );
    let many: Vec<String> = (0..25).map(|i| format!("f{}", i)).collect();
    let s = extraction_summary(&many, "out");
    assert!(s.starts_with("Extracted 25 files to out\n\nContents:\n  - f0\n"));
    assert!(s.contains("  - f19\n"));
    assert!(!s.contains("  - f20\n"));
    assert!(s.ends_with("  ... and 5 more files\n"));
}

#[test]
fn topics_have_their_api_names() {
    assert_eq!(Topic::General.as_str(), "general");
    assert_eq!(Topic::News.as_str(), "news");
    assert_eq!(Topic::Finance.as_str(), "finance");
    assert_eq!(FirstTopic::News.as_str(), "news");
}

#[test]
fn tavily_client_needs_a_key() {
    assert!(TavilyClient::new("").is_err());
    if let Ok(c) = TavilyClient::new("tvly-key") {
        assert_eq!(c.api_key, "tvly-key");
        let req = c.new_request("rust verification");
        let shown = format!("{:?}", req);
        assert!(shown.contains("rust verification"));
        assert!(shown.contains("tvly-key"));
    }
}

#[test]
fn tavily_client_keeps_the_built_client_or_its_error() {
    let built = tavily::Tavily::builder("").build();
    assert!(built.is_err());
    assert!(TavilyClient::from_build("", built).is_err());
    if let Ok(client) = tavily::Tavily::builder("tvly-key").build() {
        let c = TavilyClient::from_build("tvly-key", Ok(client)).unwrap();
        assert_eq!(c.api_key, "tvly-key");
    }
}

#[test]
fn search_requests_carry_query_count_and_topic() {
    let input = SearchWebInput {
        query: "nobel prize physics".to_string(),
        max_result: 3,
        topic: Topic::News,
        time_range: Some("week".to_string()),
        country: None,
    };
    if let Ok(c) = TavilyClient::new("tvly-key") {
        let shown = format!("{:?}", c.search_request(&input));
        let expected = format!(
            "{:?}",
            tavily::SearchRequest::new("tvly-key", "nobel prize physics").max_results(3).topic("news")
        );
        assert_eq!(shown, expected);
        assert!(!shown.contains("week"));
    }
    let first = ring0::anthropic::tools::tavily::SearchWeb {
        query: "rust".to_string(),
        max_result: 5,
        topic: FirstTopic::Finance,
        time_range: None,
        country: Some("korea".to_string()),
    };
    let shown = format!("{:?}", ring0::anthropic::tools::tavily::search_request("k", &first));
    let expected = format!("{:?}", tavily::SearchRequest::new("k", "rust").max_results(5).topic("finance"));
    assert_eq!(shown, expected);
}

#[test]
fn missing_tool_is_reported_with_the_request() {
    let t = ToolUse {
        id: "toolu_9".to_string(),
        name: "weather \"now\"".to_string(),
        input: serde_json::from_str("{\"city\":\"Seoul\"}").unwrap(),
    };
    assert_eq!(t.debug_string(), format!("{:?}", t));
    let r = t.not_found_result();
    assert_eq!(r.tool_use_id, "toolu_9");
    assert_eq!(r.content, format!("cannot find tool {:?}", t));
}

#[test]
fn tavily_build_errors_tell_the_key_from_the_client() {
    match TavilyClient::new("") {
        Err(tavily::TavilyError::Configuration(_)) => {}
        _ => panic!("an empty key must be a configuration error"),
    }
    match TavilyClient::new("tvly-key") {
        Ok(c) => assert_eq!(c.api_key, "tvly-key"),
        Err(e) => assert!(matches!(e, tavily::TavilyError::Http(_))),
    }
}
