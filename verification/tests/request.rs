use anthropic_tools::common::errors::AnthropicToolError;
use anthropic_tools::common::json::Json;
use anthropic_tools::messages::request::body::{Body, Metadata, Sample, ToolChoice};
use anthropic_tools::messages::request::content::{
    CacheControl, ContentBlock, DocumentSource, ImageSource, MediaType,
};
use anthropic_tools::messages::request::mcp::{McpServer, ToolConfiguration};
use anthropic_tools::messages::request::message::{Message, SystemBlock, SystemPrompt};
use anthropic_tools::messages::request::role::Role;
use anthropic_tools::messages::request::Messages;

fn sample(value: f32) -> Sample {
    Sample::new(value.to_bits(), &format!("{}", value))
}

fn text_of(json: Json) -> String {
    json.to_text().unwrap()
}

#[test]
fn test_messages_builder() {
    let mut client = Messages::with_api_key("test_key");
    client.model("sonnet-4-20250514").max_tokens(1024).system("You are a helpful assistant.").user("Hello!");

    let body = client.body();
    assert_eq!(body.model, "sonnet-4-20250514");
    assert_eq!(body.max_tokens, 1024);
    assert_eq!(body.messages.len(), 1);
}

#[test]
fn test_message_creation() {
    let msg = Message::user("Hello!");
    assert_eq!(msg.role, Role::User);
    assert_eq!(msg.content.len(), 1);
}

#[test]
fn test_content_block() {
    let block = ContentBlock::text("Test text");
    let json = text_of(block.to_json());
    assert!(json.contains("\"type\":\"text\""));
    assert!(json.contains("\"text\":\"Test text\""));
}

#[test]
fn test_body_new() {
    let body = Body::new("sonnet-4-20250514", 1024);
    assert_eq!(body.model, "sonnet-4-20250514");
    assert_eq!(body.max_tokens, 1024);
}

#[test]
fn test_body_validate_missing_model() {
    let body = Body::default();
    let result = body.validate();
    assert!(result.is_err());
}

#[test]
fn test_body_validate_missing_messages() {
    let body = Body::new("sonnet-4-20250514", 1024);
    let result = body.validate();
    assert!(result.is_err());
}

#[test]
fn test_tool_choice_serialize() {
    let auto = ToolChoice::Auto;
    let json = text_of(auto.to_json());
    assert!(json.contains("\"type\":\"auto\""));

    let tool = ToolChoice::Tool { name: "search".to_string() };
    let json = text_of(tool.to_json());
    assert!(json.contains("\"type\":\"tool\""));
    assert!(json.contains("\"name\":\"search\""));
}

#[test]
fn test_body_serialize() {
    let body = Body::new("sonnet-4-20250514", 1024);
    let json = text_of(body.to_json());
    assert!(json.contains("\"model\":\"sonnet-4-20250514\""));
    assert!(json.contains("\"max_tokens\":1024"));
    // Optional fields should not be present
    assert!(!json.contains("\"temperature\""));
    assert!(!json.contains("\"system\""));
}

#[test]
fn test_text_content_block() {
    let block = ContentBlock::text("Hello, world!");
    let json = text_of(block.to_json());
    assert!(json.contains("\"type\":\"text\""));
    assert!(json.contains("\"text\":\"Hello, world!\""));
}

#[test]
fn test_text_with_cache_control() {
    let block = ContentBlock::text_with_cache("Cached text");
    let json = text_of(block.to_json());
    assert!(json.contains("\"cache_control\""));
    assert!(json.contains("\"type\":\"ephemeral\""));
}

#[test]
fn test_image_from_url() {
    let block = ContentBlock::image_from_url("https://example.com/image.png");
    let json = text_of(block.to_json());
    assert!(json.contains("\"type\":\"image\""));
    assert!(json.contains("\"url\":\"https://example.com/image.png\""));
}

#[test]
fn test_tool_use_content_block() {
    let input = Json::Object(vec![("query".to_string(), Json::Str("test".to_string()))]);
    let block = ContentBlock::tool_use("tool_123", "search", input);
    let json = text_of(block.to_json());
    assert!(json.contains("\"type\":\"tool_use\""));
    assert!(json.contains("\"id\":\"tool_123\""));
    assert!(json.contains("\"name\":\"search\""));
}

#[test]
fn test_tool_result_content_block() {
    let block = ContentBlock::tool_result_text("tool_123", "Search results here");
    let json = text_of(block.to_json());
    assert!(json.contains("\"type\":\"tool_result\""));
    assert!(json.contains("\"tool_use_id\":\"tool_123\""));
}

#[test]
fn test_tool_result_error() {
    let block = ContentBlock::tool_result_error("tool_123", "Error occurred");
    let json = text_of(block.to_json());
    assert!(json.contains("\"is_error\":true"));
}

#[test]
fn test_document_from_url() {
    let block = ContentBlock::document_from_url("https://example.com/doc.pdf");
    let json = text_of(block.to_json());
    assert!(json.contains("\"type\":\"document\""));
    assert!(json.contains("\"url\":\"https://example.com/doc.pdf\""));
}

#[test]
fn test_deserialize_text_block() {
    let json = r#"{"type":"text","text":"Hello"}"#;
    let block: ContentBlock = ContentBlock::from_json(&Json::parse(json).unwrap()).unwrap();
    match block {
        ContentBlock::Text { text, .. } => assert_eq!(text, "Hello"),
        _ => panic!("Expected Text block"),
    }
}

#[test]
fn test_deserialize_tool_use_block() {
    let json = r#"{"type":"tool_use","id":"123","name":"search","input":{"q":"test"}}"#;
    let block: ContentBlock = ContentBlock::from_json(&Json::parse(json).unwrap()).unwrap();
    match block {
        ContentBlock::ToolUse { id, name, input } => {
            assert_eq!(id, "123");
            assert_eq!(name, "search");
            assert_eq!(input.member("q"), Some(&Json::Str("test".to_string())));
        }
        _ => panic!("Expected ToolUse block"),
    }
}

#[test]
fn test_user_message() {
    let msg = Message::user("Hello!");
    assert_eq!(msg.role, Role::User);
    assert_eq!(msg.content.len(), 1);

    let json = text_of(msg.to_json());
    assert!(json.contains("\"role\":\"user\""));
    assert!(json.contains("\"text\":\"Hello!\""));
}

#[test]
fn test_assistant_message() {
    let msg = Message::assistant("Hi there!");
    assert_eq!(msg.role, Role::Assistant);

    let json = text_of(msg.to_json());
    assert!(json.contains("\"role\":\"assistant\""));
}

#[test]
fn test_tool_result_message() {
    let msg = Message::tool_result("tool_123", "Result data");

    let json = text_of(msg.to_json());
    assert!(json.contains("\"role\":\"user\""));
    assert!(json.contains("\"tool_use_id\":\"tool_123\""));
}

#[test]
fn test_system_prompt_text() {
    let system = SystemPrompt::text("You are a helpful assistant.");
    let json = text_of(system.to_json());
    assert_eq!(json, "\"You are a helpful assistant.\"");
}

#[test]
fn test_system_prompt_with_cache() {
    let system = SystemPrompt::with_cache("Cached system prompt");
    let json = text_of(system.to_json());
    assert!(json.contains("\"cache_control\""));
    assert!(json.contains("\"type\":\"ephemeral\""));
}

#[test]
fn test_message_builder() {
    let mut msg = Message::user("Initial text");
    msg.add_text("More text").add_image_from_url("https://example.com/image.png");

    assert_eq!(msg.content.len(), 3);
}

#[test]
fn test_image_source_from_url_async() {
    let source = ImageSource::from_url("https://example.com/image.png");
    assert_eq!(source.kind, "url");
    assert!(source.url.is_some());
}

#[test]
fn validate_reports_the_first_broken_rule() {
    let mut body = Body::default();
    match body.validate() {
        Err(AnthropicToolError::MissingRequiredField(field)) => assert_eq!(field, "model"),
        other => panic!("unexpected {:?}", other),
    }
    body.model = "m".to_string();
    match body.validate() {
        Err(AnthropicToolError::MissingRequiredField(field)) => assert_eq!(field, "messages"),
        other => panic!("unexpected {:?}", other),
    }
    body.messages.push(Message::user("hi"));
    assert!(body.validate().is_ok());
    body.max_tokens = 0;
    match body.validate() {
        Err(AnthropicToolError::InvalidParameter(reason)) => {
            assert_eq!(reason, "max_tokens must be greater than 0")
        }
        other => panic!("unexpected {:?}", other),
    }
    body.max_tokens = 1;
    body.temperature = Some(sample(1.5));
    body.top_p = Some(sample(-0.5));
    match body.validate() {
        Err(AnthropicToolError::InvalidParameter(reason)) => {
            assert_eq!(reason, "temperature must be between 0.0 and 1.0")
        }
        other => panic!("unexpected {:?}", other),
    }
    body.temperature = Some(sample(0.7));
    match body.validate() {
        Err(AnthropicToolError::InvalidParameter(reason)) => {
            assert_eq!(reason, "top_p must be between 0.0 and 1.0")
        }
        other => panic!("unexpected {:?}", other),
    }
    body.top_p = Some(sample(1.0));
    assert!(body.validate().is_ok());
}

#[test]
fn unit_interval_agrees_with_float_comparison() {
    let samples = [
        0.0f32,
        -0.0,
        1.0,
        0.5,
        0.7,
        f32::MIN_POSITIVE,
        f32::from_bits(1),
        f32::from_bits(0x3F7F_FFFF),
        f32::from_bits(0x3F80_0001),
        f32::from_bits(0x8000_0001),
        1.5,
        -0.5,
        -1.0,
        2.0,
        f32::MAX,
        f32::MIN,
        f32::INFINITY,
        f32::NEG_INFINITY,
        f32::NAN,
        -f32::NAN,
        f32::EPSILON,
        1.0 + f32::EPSILON,
        1.0 - f32::EPSILON,
    ];
    for value in samples {
        let expected = (0.0..=1.0).contains(&value);
        assert_eq!(sample(value).is_in_unit_interval(), expected, "{:?}", value);
        assert_eq!(sample(value).to_bits(), value.to_bits());
    }
}

#[test]
fn ready_needs_a_key_and_a_sound_body() {
    let mut client = Messages::with_api_key("");
    client.model("m").user("hi");
    assert!(matches!(client.ready(), Err(AnthropicToolError::ApiKeyNotSet)));
    let mut client = Messages::with_api_key("key");
    match client.ready() {
        Err(AnthropicToolError::MissingRequiredField(field)) => assert_eq!(field, "model"),
        other => panic!("unexpected {:?}", other),
    }
    client.model("m");
    match client.ready() {
        Err(AnthropicToolError::MissingRequiredField(field)) => assert_eq!(field, "messages"),
        other => panic!("unexpected {:?}", other),
    }
    client.user("hi");
    assert!(client.ready().is_ok());
    assert_eq!(client.api_key(), "key");
}

#[test]
fn builder_sets_every_field() {
    let mut client = Messages::with_api_key("key");
    assert_eq!(client.body().max_tokens, 1024);
    assert_eq!(client.body().model, "");
    client
        .model("m")
        .max_tokens(5)
        .system_with_cache("sys")
        .messages(vec![Message::user("first")])
        .add_message(Message::assistant("second"))
        .user("third")
        .assistant("fourth")
        .user_with_image_url("look", "https://example.com/i.png")
        .tool_result("toolu_1", "ok")
        .tool_error("toolu_2", "bad")
        .temperature(sample(0.25))
        .top_p(sample(0.5))
        .top_k(40)
        .stop_sequences(vec!["STOP".to_string()])
        .tools(vec![Json::Object(vec![("name".to_string(), Json::Str("t".to_string()))])])
        .tool_choice(ToolChoice::Any)
        .user_id("u-1")
        .stream(true)
        .container("c-1");
    let body = client.body();
    assert_eq!(body.model, "m");
    assert_eq!(body.max_tokens, 5);
    assert!(matches!(&body.system, Some(SystemPrompt::Blocks(blocks)) if blocks.len() == 1 && blocks[0].text == "sys" && blocks[0].cache_control.is_some()));
    assert_eq!(body.messages.len(), 7);
    assert_eq!(body.messages[0].role, Role::User);
    assert_eq!(body.messages[1].role, Role::Assistant);
    assert_eq!(body.messages[3].role, Role::Assistant);
    assert_eq!(body.messages[4].content.len(), 2);
    assert!(matches!(&body.messages[4].content[0], ContentBlock::Image { .. }));
    assert!(matches!(&body.messages[4].content[1], ContentBlock::Text { text, .. } if text == "look"));
    assert!(matches!(&body.messages[5].content[0], ContentBlock::ToolResult { is_error: None, .. }));
    assert!(matches!(&body.messages[6].content[0], ContentBlock::ToolResult { is_error: Some(true), .. }));
    assert_eq!(body.temperature, Some(sample(0.25)));
    assert_eq!(body.top_p, Some(sample(0.5)));
    assert_eq!(body.top_k, Some(40));
    assert_eq!(body.stop_sequences, Some(vec!["STOP".to_string()]));
    assert_eq!(body.tools.as_ref().map(|t| t.len()), Some(1));
    assert!(matches!(body.tool_choice, Some(ToolChoice::Any)));
    assert_eq!(body.metadata.as_ref().and_then(|m| m.user_id.as_deref()), Some("u-1"));
    assert_eq!(body.stream, Some(true));
    assert_eq!(body.container.as_deref(), Some("c-1"));
    assert!(body.mcp_servers.is_none());
    assert!(client.ready().is_ok());
}

#[test]
fn system_replaces_the_prompt() {
    let mut client = Messages::with_api_key("key");
    client.system_with_cache("a").system("b");
    assert!(matches!(&client.body().system, Some(SystemPrompt::Text(text)) if text == "b"));
}

#[test]
fn body_to_json_exact_text() {
    let mut body = Body::new("m", 16);
    body.messages.push(Message::user("hi"));
    body.system = Some(SystemPrompt::blocks(vec![
        SystemBlock::text("plain"),
        SystemBlock::text_with_cache("cached"),
    ]));
    body.temperature = Some(sample(0.5));
    body.top_p = Some(Sample::new(1.0f32.to_bits(), "1.0"));
    body.top_k = Some(3);
    body.stop_sequences = Some(vec!["a".to_string(), "b".to_string()]);
    body.stream = Some(false);
    body.tools = Some(vec![Json::Null]);
    body.tool_choice = Some(ToolChoice::Disabled);
    body.metadata = Some(Metadata::default());
    body.container = Some("box".to_string());
    body.mcp_servers = Some(vec![McpServer {
        name: "srv".to_string(),
        kind: "url".to_string(),
        url: "https://mcp.example.com".to_string(),
        authorization_token: None,
        tool_configuration: Some(ToolConfiguration {
            allowed_tools: vec!["t1".to_string()],
            enabled: true,
        }),
    }]);
    assert_eq!(
        text_of(body.to_json()),
        concat_all(&[
            r#"{"container":"box","max_tokens":16,"#,
            r#""mcp_servers":[{"authorization_token":null,"name":"srv","tool_configuration":{"allowed_tools":["t1"],"enabled":true},"type":"url","url":"https://mcp.example.com"}],"#,
            r#""messages":[{"content":[{"text":"hi","type":"text"}],"role":"user"}],"#,
            r#""metadata":{},"model":"m","stop_sequences":["a","b"],"stream":false,"#,
            r#""system":[{"text":"plain","type":"text"},{"cache_control":{"type":"ephemeral"},"text":"cached","type":"text"}],"#,
            r#""temperature":0.5,"tool_choice":{"type":"none"},"tools":[null],"top_k":3,"top_p":1.0}"#,
        ])
    );
    match body.to_json() {
        Json::Object(members) => {
            let names: Vec<&str> = members.iter().map(|(name, _)| name.as_str()).collect();
            assert_eq!(
                names,
                vec![
                    "model",
                    "messages",
                    "max_tokens",
                    "system",
                    "temperature",
                    "top_p",
                    "top_k",
                    "stop_sequences",
                    "stream",
                    "tools",
                    "tool_choice",
                    "metadata",
                    "container",
                    "mcp_servers"
                ]
            );
        }
        other => panic!("unexpected {:?}", other),
    }
}

fn concat_all(parts: &[&str]) -> String {
    parts.concat()
}

#[test]
fn content_block_json_round_trip() {
    let blocks = vec![
        ContentBlock::text("t"),
        ContentBlock::text_with_cache("c"),
        ContentBlock::image_from_url("https://example.com/i.png"),
        ContentBlock::image_from_base64(MediaType::Jpeg, "QUJD"),
        ContentBlock::tool_use("id", "name", Json::Array(vec![Json::Signed(-1), Json::Bool(false)])),
        ContentBlock::tool_result_text("id", "fine"),
        ContentBlock::tool_result_error("id", "broken"),
        ContentBlock::ToolResult { tool_use_id: "id".to_string(), content: None, is_error: None },
        ContentBlock::Thinking { thinking: "hm".to_string(), signature: Some("sig".to_string()) },
        ContentBlock::Thinking { thinking: "hm".to_string(), signature: None },
        ContentBlock::document_from_url("https://example.com/d.pdf"),
        ContentBlock::Document {
            source: DocumentSource::from_base64("AAAA"),
            cache_control: Some(CacheControl::ephemeral()),
        },
    ];
    for block in &blocks {
        let json = block.to_json();
        let back = ContentBlock::from_json(&json).unwrap();
        assert_eq!(back.to_json(), json);
        let reparsed = Json::parse(&json.to_text().unwrap()).unwrap();
        let again = ContentBlock::from_json(&reparsed).unwrap();
        assert_eq!(text_of(again.to_json()), text_of(json));
        let copy = block.clone();
        assert_eq!(copy.to_json(), block.to_json());
    }
    assert_eq!(
        text_of(blocks[3].to_json()),
        r#"{"source":{"data":"QUJD","media_type":"image/jpeg","type":"base64"},"type":"image"}"#
    );
    assert_eq!(
        text_of(blocks[6].to_json()),
        r#"{"content":[{"text":"broken","type":"text"}],"is_error":true,"tool_use_id":"id","type":"tool_result"}"#
    );
    assert_eq!(
        text_of(blocks[11].to_json()),
        r#"{"cache_control":{"type":"ephemeral"},"source":{"data":"AAAA","media_type":"application/pdf","type":"base64"},"type":"document"}"#
    );
}

#[test]
fn media_type_names() {
    let all = [
        (MediaType::Png, "image/png"),
        (MediaType::Jpeg, "image/jpeg"),
        (MediaType::Gif, "image/gif"),
        (MediaType::Webp, "image/webp"),
    ];
    for (media_type, name) in all {
        assert_eq!(media_type.as_str(), name);
        assert_eq!(MediaType::from_name(name), Some(media_type));
        let source = ImageSource::from_base64(media_type, "QQ==");
        assert_eq!(source.kind, "base64");
        assert_eq!(source.media_type.as_deref(), Some(name));
        assert_eq!(source.data.as_deref(), Some("QQ=="));
        assert!(source.url.is_none());
    }
    assert_eq!(MediaType::from_name("image/bmp"), None);
    assert_eq!(MediaType::from_name("IMAGE/PNG"), None);
}

#[test]
fn message_new_and_add_content() {
    let mut message = Message::new(Role::Assistant, vec![ContentBlock::text("a")]);
    message.add_content(ContentBlock::tool_use("id", "n", Json::Null)).add_text("b");
    assert_eq!(message.role, Role::Assistant);
    assert_eq!(message.content.len(), 3);
    assert!(matches!(&message.content[1], ContentBlock::ToolUse { .. }));
    assert!(matches!(&message.content[2], ContentBlock::Text { text, .. } if text == "b"));
    let copy = message.clone();
    assert_eq!(copy.to_json(), message.to_json());
    let with_image = Message::user_with_image_url("see", "https://example.com/x.png");
    assert_eq!(
        text_of(with_image.to_json()),
        r#"{"content":[{"source":{"type":"url","url":"https://example.com/x.png"},"type":"image"},{"text":"see","type":"text"}],"role":"user"}"#
    );
    let error = Message::tool_error("id", "bad");
    assert!(matches!(&error.content[0], ContentBlock::ToolResult { is_error: Some(true), .. }));
}
