use anthropic_tools::common::json::Json;
use anthropic_tools::common::usage::Usage;

#[test]
fn test_usage_new() {
    let usage = Usage::new(100, 50);
    assert_eq!(usage.input_tokens, 100);
    assert_eq!(usage.output_tokens, 50);
    assert_eq!(usage.total_tokens(), 150);
}

#[test]
fn test_usage_deserialize() {
    let json = r#"{
            "input_tokens": 100,
            "output_tokens": 50,
            "cache_creation_input_tokens": 10,
            "cache_read_input_tokens": 20
        }"#;

    let usage: Usage = Usage::from_json(&Json::parse(json).unwrap()).unwrap();
    assert_eq!(usage.input_tokens, 100);
    assert_eq!(usage.output_tokens, 50);
    assert_eq!(usage.cache_creation_input_tokens, Some(10));
    assert_eq!(usage.cache_read_input_tokens, Some(20));
    assert_eq!(usage.cached_tokens(), 30);
}

#[test]
fn test_usage_serialize() {
    let usage = Usage::new(100, 50);
    let json = usage.to_json().to_text().unwrap();
    assert!(json.contains("\"input_tokens\":100"));
    assert!(json.contains("\"output_tokens\":50"));
    // cache fields should be omitted when None
    assert!(!json.contains("cache_creation_input_tokens"));
    assert!(!json.contains("cache_read_input_tokens"));
}

#[test]
fn usage_defaults_and_cached_tokens() {
    let usage = Usage::default();
    assert_eq!(usage, Usage::new(0, 0));
    assert_eq!(usage.total_tokens(), 0);
    assert_eq!(usage.cached_tokens(), 0);
    let usage = Usage {
        input_tokens: 1,
        output_tokens: 2,
        cache_creation_input_tokens: Some(7),
        cache_read_input_tokens: None,
    };
    assert_eq!(usage.cached_tokens(), 7);
    assert_eq!(usage.total_tokens(), 3);
    let usage = Usage { cache_creation_input_tokens: None, cache_read_input_tokens: Some(4), ..usage };
    assert_eq!(usage.cached_tokens(), 4);
}

#[test]
fn usage_json_round_trip() {
    let usage = Usage {
        input_tokens: 3,
        output_tokens: 4,
        cache_creation_input_tokens: None,
        cache_read_input_tokens: Some(9),
    };
    let json = usage.to_json();
    assert_eq!(
        json,
        Json::Object(vec![
            ("input_tokens".to_string(), Json::Unsigned(3)),
            ("output_tokens".to_string(), Json::Unsigned(4)),
            ("cache_read_input_tokens".to_string(), Json::Unsigned(9)),
        ])
    );
    assert_eq!(Usage::from_json(&json), Some(usage));
}

#[test]
fn usage_rejects_wrong_forms() {
    let parse = |text: &str| Usage::from_json(&Json::parse(text).unwrap());
    assert_eq!(parse(r#"{"input_tokens":1}"#), None);
    assert_eq!(parse(r#"{"input_tokens":1,"output_tokens":-2}"#), None);
    assert_eq!(parse(r#"{"input_tokens":1,"output_tokens":2.0}"#), None);
    assert_eq!(parse(r#"{"input_tokens":"1","output_tokens":2}"#), None);
    assert_eq!(parse(r#"{"input_tokens":1,"output_tokens":2,"cache_read_input_tokens":"x"}"#), None);
    assert_eq!(parse(r#"[1,2]"#), None);
    assert_eq!(
        parse(r#"{"input_tokens":1,"output_tokens":2,"cache_read_input_tokens":null,"more":true}"#),
        Some(Usage::new(1, 2))
    );
}
