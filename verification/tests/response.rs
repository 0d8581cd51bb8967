use anthropic_tools::common::errors::{AnthropicToolError, ErrorDetail, ErrorResponse};
use anthropic_tools::common::json::Json;
use anthropic_tools::common::usage::Usage;
use anthropic_tools::messages::request::content::ContentBlock;
use anthropic_tools::messages::request::role::Role;
use anthropic_tools::messages::response::{Response, StopReason};

fn sample_response() -> Response {
    Response {
        id: "msg_123".to_string(),
        kind: "message".to_string(),
        role: Role::Assistant,
        content: vec![ContentBlock::Text { text: "Hello, world!".to_string(), cache_control: None }],
        model: "sonnet-4-20250514".to_string(),
        stop_reason: Some(StopReason::EndTurn),
        stop_sequence: None,
        usage: Usage::new(10, 5),
    }
}

fn mixed_response() -> Response {
    Response {
        id: "msg_9".to_string(),
        kind: "message".to_string(),
        role: Role::Assistant,
        content: vec![
            ContentBlock::Thinking { thinking: "first ".to_string(), signature: None },
            ContentBlock::text("Let me "),
            ContentBlock::tool_use("tool_1", "search", Json::Null),
            ContentBlock::text("look."),
            ContentBlock::tool_use("tool_2", "fetch", Json::Null),
            ContentBlock::Thinking { thinking: "second".to_string(), signature: Some("s".to_string()) },
            ContentBlock::tool_use("tool_1", "again", Json::Null),
        ],
        model: "m".to_string(),
        stop_reason: Some(StopReason::ToolUse),
        stop_sequence: None,
        usage: Usage::new(1, 2),
    }
}

#[test]
fn test_response_text() {
    let response = sample_response();
    assert_eq!(response.get_text(), "Hello, world!");
}

#[test]
fn test_response_stop_reason() {
    let response = sample_response();
    assert!(response.stopped_naturally());
    assert!(!response.stopped_for_tool_use());
    assert!(!response.hit_max_tokens());
}

#[test]
fn test_response_with_tool_use() {
    let response = Response {
        id: "msg_123".to_string(),
        kind: "message".to_string(),
        role: Role::Assistant,
        content: vec![
            ContentBlock::Text { text: "Let me search for that.".to_string(), cache_control: None },
            ContentBlock::ToolUse {
                id: "tool_123".to_string(),
                name: "search".to_string(),
                input: Json::Object(vec![("query".to_string(), Json::Str("test".to_string()))]),
            },
        ],
        model: "sonnet-4-20250514".to_string(),
        stop_reason: Some(StopReason::ToolUse),
        stop_sequence: None,
        usage: Usage::new(20, 15),
    };

    assert!(response.has_tool_use());
    assert!(response.stopped_for_tool_use());
    assert_eq!(response.get_tool_uses().len(), 1);
}

#[test]
fn test_deserialize_response() {
    let json = r#"{
            "id": "msg_01XYZ",
            "type": "message",
            "role": "assistant",
            "content": [
                {
                    "type": "text",
                    "text": "Hello!"
                }
            ],
            "model": "sonnet-4-20250514",
            "stop_reason": "end_turn",
            "usage": {
                "input_tokens": 10,
                "output_tokens": 5
            }
        }"#;

    let response: Response = Response::from_json(&Json::parse(json).unwrap()).unwrap();
    assert_eq!(response.id, "msg_01XYZ");
    assert_eq!(response.get_text(), "Hello!");
    assert_eq!(response.stop_reason, Some(StopReason::EndTurn));
}

#[test]
fn test_serialize_stop_reason() {
    let reason = StopReason::ToolUse;
    let json = reason.to_json().to_text().unwrap();
    assert_eq!(json, "\"tool_use\"");

    let reason = StopReason::EndTurn;
    let json = reason.to_json().to_text().unwrap();
    assert_eq!(json, "\"end_turn\"");
}

#[test]
fn text_and_thinking_join_in_order() {
    let response = mixed_response();
    assert_eq!(response.get_text(), "Let me look.");
    assert_eq!(response.text(), Some("Let me look.".to_string()));
    assert_eq!(response.get_thinking(), Some("first second".to_string()));
    assert!(response.has_thinking());
    let plain = sample_response();
    assert!(!plain.has_thinking());
    assert!(!plain.has_tool_use());
    assert_eq!(plain.get_thinking(), Some(String::new()));
    assert!(plain.get_tool_uses().is_empty());
    let empty = Response { content: vec![], ..sample_response() };
    assert_eq!(empty.get_text(), "");
    assert_eq!(empty.text(), Some(String::new()));
}

#[test]
fn tool_uses_are_found_in_order() {
    let response = mixed_response();
    let names: Vec<String> = response
        .get_tool_uses()
        .iter()
        .map(|block| match block {
            ContentBlock::ToolUse { name, .. } => name.clone(),
            other => panic!("unexpected {:?}", other),
        })
        .collect();
    assert_eq!(names, vec!["search", "fetch", "again"]);
    assert!(matches!(response.get_tool_use_by_id("tool_1"), Some(ContentBlock::ToolUse { name, .. }) if name == "search"));
    assert!(matches!(response.get_tool_use_by_id("tool_2"), Some(ContentBlock::ToolUse { name, .. }) if name == "fetch"));
    assert!(response.get_tool_use_by_id("tool_3").is_none());
    assert!(response.get_tool_use_by_id("").is_none());
}

#[test]
fn stop_reason_helpers() {
    let mut response = sample_response();
    response.stop_reason = Some(StopReason::MaxTokens);
    assert!(response.hit_max_tokens() && !response.stopped_naturally() && !response.stopped_for_tool_use());
    response.stop_reason = Some(StopReason::ToolUse);
    assert!(response.stopped_for_tool_use() && !response.hit_max_tokens());
    response.stop_reason = Some(StopReason::Refusal);
    assert!(!response.stopped_for_tool_use() && !response.hit_max_tokens() && !response.stopped_naturally());
    response.stop_reason = None;
    assert!(!response.stopped_for_tool_use() && !response.hit_max_tokens() && !response.stopped_naturally());
}

#[test]
fn response_from_json_rejects_wrong_forms() {
    let parse = |text: &str| Response::from_json(&Json::parse(text).unwrap());
    let good = r#"{"id":"i","type":"message","role":"assistant","content":[],"model":"m","usage":{"input_tokens":1,"output_tokens":2}}"#;
    assert!(parse(good).is_some());
    assert!(parse(&good.replace(r#""id":"i","#, "")).is_none());
    assert!(parse(&good.replace(r#""role":"assistant""#, r#""role":"system""#)).is_none());
    assert!(parse(&good.replace(r#""content":[]"#, r#""content":{}"#)).is_none());
    assert!(parse(&good.replace(r#""content":[]"#, r#""content":[{"type":"text"}]"#)).is_none());
    assert!(parse(&good.replace(r#""model":"m""#, r#""model":"m","stop_reason":"because""#)).is_none());
    assert!(parse(&good.replace(r#""model":"m""#, r#""model":"m","stop_sequence":7"#)).is_none());
    assert!(parse(&good.replace(r#""output_tokens":2"#, r#""output_tokens":"2""#)).is_none());
    let full = parse(&good.replace(r#""model":"m""#, r#""model":"m","stop_reason":"stop_sequence","stop_sequence":"END""#)).unwrap();
    assert_eq!(full.stop_reason, Some(StopReason::StopSequence));
    assert_eq!(full.stop_sequence.as_deref(), Some("END"));
    assert_eq!(full.usage, Usage::new(1, 2));
}

#[test]
fn reply_after_success_is_a_response() {
    let body = r#"{"id":"i","type":"message","role":"assistant","content":[{"type":"text","text":"4"}],"model":"m","stop_reason":"end_turn","usage":{"input_tokens":1,"output_tokens":2}}"#;
    let response = Response::from_reply(true, body).unwrap();
    assert_eq!(response.get_text(), "4");
    assert!(matches!(Response::from_reply(true, "not json"), Err(AnthropicToolError::SerdeJsonError(_))));
    assert!(matches!(Response::from_reply(true, "{}"), Err(AnthropicToolError::SerdeJsonError(_))));
    assert!(matches!(Response::from_reply(false, body), Err(AnthropicToolError::SerdeJsonError(_))));
    assert!(matches!(Response::from_reply(false, "<html>"), Err(AnthropicToolError::SerdeJsonError(_))));
}

#[test]
fn reply_after_failure_is_the_reported_error() {
    let body = |kind: &str| {
        format!(r#"{{"type":"error","error":{{"type":"{}","message":"said so"}},"request_id":"req_1"}}"#, kind)
    };
    assert!(matches!(Response::from_reply(false, &body("invalid_request_error")), Err(AnthropicToolError::InvalidRequestError(m)) if m == "said so"));
    assert!(matches!(Response::from_reply(false, &body("authentication_error")), Err(AnthropicToolError::AuthenticationError(m)) if m == "said so"));
    assert!(matches!(Response::from_reply(false, &body("permission_error")), Err(AnthropicToolError::PermissionError(m)) if m == "said so"));
    assert!(matches!(Response::from_reply(false, &body("not_found_error")), Err(AnthropicToolError::NotFoundError(m)) if m == "said so"));
    assert!(matches!(Response::from_reply(false, &body("rate_limit_error")), Err(AnthropicToolError::RateLimitError(m)) if m == "said so"));
    assert!(matches!(Response::from_reply(false, &body("overloaded_error")), Err(AnthropicToolError::OverloadedError(m)) if m == "said so"));
    match Response::from_reply(false, &body("api_error")) {
        Err(AnthropicToolError::ApiError { error_type, message, request_id }) => {
            assert_eq!(error_type, "api_error");
            assert_eq!(message, "said so");
            assert_eq!(request_id.as_deref(), Some("req_1"));
        }
        other => panic!("unexpected {:?}", other),
    }
    assert!(matches!(
        Response::from_reply(true, &body("api_error")),
        Err(AnthropicToolError::SerdeJsonError(_))
    ));
}

#[test]
fn into_error_picks_the_variant_by_kind() {
    let make = |kind: &str, request_id: Option<&str>| ErrorResponse {
        kind: "error".to_string(),
        error: ErrorDetail { kind: kind.to_string(), message: "m".to_string() },
        request_id: request_id.map(|id| id.to_string()),
    };
    assert!(matches!(make("invalid_request_error", None).into_error(), AnthropicToolError::InvalidRequestError(m) if m == "m"));
    assert!(matches!(make("authentication_error", None).into_error(), AnthropicToolError::AuthenticationError(_)));
    assert!(matches!(make("permission_error", None).into_error(), AnthropicToolError::PermissionError(_)));
    assert!(matches!(make("not_found_error", None).into_error(), AnthropicToolError::NotFoundError(_)));
    assert!(matches!(make("rate_limit_error", None).into_error(), AnthropicToolError::RateLimitError(_)));
    assert!(matches!(make("overloaded_error", None).into_error(), AnthropicToolError::OverloadedError(_)));
    assert!(matches!(make("Overloaded_error", None).into_error(), AnthropicToolError::ApiError { request_id: None, .. }));
    assert!(matches!(make("", Some("r")).into_error(), AnthropicToolError::ApiError { error_type, request_id: Some(r), .. } if error_type.is_empty() && r == "r"));
    let copy = make("x", Some("r")).clone();
    assert_eq!(copy.error.kind, "x");
    assert_eq!(copy.request_id.as_deref(), Some("r"));
}

#[test]
fn errors_in_words() {
    assert_eq!(
        AnthropicToolError::ApiKeyNotSet.to_string(),
        "API key is not set. Set ANTHROPIC_API_KEY environment variable."
    );
    assert_eq!(
        AnthropicToolError::MissingRequiredField("model".to_string()).to_string(),
        "Missing required field: model"
    );
    assert_eq!(
        AnthropicToolError::InvalidParameter("p".to_string()).to_string(),
        "Invalid parameter: p"
    );
    assert_eq!(
        AnthropicToolError::ApiError {
            error_type: "api_error".to_string(),
            message: "boom".to_string(),
            request_id: Some("r".to_string())
        }
        .to_string(),
        "API error (api_error): boom"
    );
    assert_eq!(AnthropicToolError::InvalidRequestError("x".to_string()).to_string(), "Invalid request error: x");
    assert_eq!(AnthropicToolError::AuthenticationError("x".to_string()).to_string(), "Authentication error: x");
    assert_eq!(AnthropicToolError::PermissionError("x".to_string()).to_string(), "Permission error: x");
    assert_eq!(AnthropicToolError::NotFoundError("x".to_string()).to_string(), "Not found error: x");
    assert_eq!(AnthropicToolError::RateLimitError("x".to_string()).to_string(), "Rate limit error: x");
    assert_eq!(AnthropicToolError::OverloadedError("x".to_string()).to_string(), "Overloaded error: x");
    let error = Json::parse("{").unwrap_err();
    let shown = error.to_string();
    let text = AnthropicToolError::SerdeJsonError(error).to_string();
    assert_eq!(text, format!("JSON serialization/deserialization error: {}", shown));
    assert!(!shown.is_empty());
}

#[test]
fn response_survives_the_round_trip_through_json() {
    for response in [sample_response(), mixed_response()] {
        let json = response.to_json();
        let back = Response::from_json(&json).unwrap();
        assert_eq!(back.to_json(), json);
        let reparsed = Response::from_json(&Json::parse(&json.to_text().unwrap()).unwrap()).unwrap();
        assert_eq!(reparsed.to_json().to_text().unwrap(), json.to_text().unwrap());
        assert_eq!(reparsed.get_text(), response.get_text());
    }
    assert_eq!(
        sample_response().to_json().to_text().unwrap(),
        r#"{"content":[{"text":"Hello, world!","type":"text"}],"id":"msg_123","model":"sonnet-4-20250514","role":"assistant","stop_reason":"end_turn","type":"message","usage":{"input_tokens":10,"output_tokens":5}}"#
    );
}

#[test]
fn error_body_json_forms() {
    let body = ErrorResponse {
        kind: "error".to_string(),
        error: ErrorDetail { kind: "rate_limit_error".to_string(), message: "slow down".to_string() },
        request_id: Some("req_7".to_string()),
    };
    let json = body.to_json();
    assert_eq!(
        json.to_text().unwrap(),
        r#"{"error":{"message":"slow down","type":"rate_limit_error"},"request_id":"req_7","type":"error"}"#
    );
    let back = ErrorResponse::from_json(&json).unwrap();
    assert_eq!(back.kind, "error");
    assert_eq!(back.error.kind, "rate_limit_error");
    assert_eq!(back.error.message, "slow down");
    assert_eq!(back.request_id.as_deref(), Some("req_7"));
    let bare = ErrorResponse { request_id: None, ..body.clone() };
    assert_eq!(
        bare.to_json().to_text().unwrap(),
        r#"{"error":{"message":"slow down","type":"rate_limit_error"},"type":"error"}"#
    );
    assert!(ErrorResponse::from_json(&Json::parse(r#"{"type":"error"}"#).unwrap()).is_none());
    assert!(ErrorResponse::from_json(&Json::parse(r#"{"type":"error","error":{"type":"x"}}"#).unwrap()).is_none());
    assert!(ErrorDetail::from_json(&Json::parse(r#"{"type":1,"message":"m"}"#).unwrap()).is_none());
}
