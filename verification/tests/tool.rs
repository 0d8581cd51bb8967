use anthropic_tools::common::json::Json;
use anthropic_tools::common::tool::{CacheControl, JsonSchema, PropertyDef, Tool};

fn has_property(tool: &Tool, name: &str) -> bool {
    tool.input_schema.properties.as_ref().unwrap().iter().any(|(key, _)| key == name)
}

#[test]
fn tool_test_tool_builder() {
    let mut tool = Tool::new("search");
    tool.description("Search the web for information")
        .add_string_property("query", Some("The search query"), true)
        .add_number_property("limit", Some("Maximum results to return"), false);

    assert_eq!(tool.name, "search");
    assert!(tool.description.is_some());
    assert!(tool.input_schema.properties.is_some());

    assert!(has_property(&tool, "query"));
    assert!(has_property(&tool, "limit"));

    let required = tool.input_schema.required.as_ref().unwrap();
    assert!(required.contains(&"query".to_string()));
    assert!(!required.contains(&"limit".to_string()));
}

#[test]
fn lib_test_tool_builder() {
    let mut tool = Tool::new("search");
    tool.description("Search for information").add_string_property("query", Some("Search query"), true);

    assert_eq!(tool.name, "search");
    assert!(tool.input_schema.properties.is_some());
}

#[test]
fn test_tool_serialize() {
    let mut tool = Tool::new("get_weather");
    tool.description("Get the current weather in a given location")
        .add_string_property("location", Some("The city and state, e.g. San Francisco, CA"), true)
        .add_enum_property("unit", Some("Temperature unit"), vec!["celsius", "fahrenheit"], false);

    let json = tool.to_value().to_text_pretty().unwrap();
    assert!(json.contains("\"name\": \"get_weather\""));
    assert!(json.contains("\"type\": \"object\""));
    assert!(json.contains("\"location\""));
    assert!(json.contains("\"required\""));
}

#[test]
fn test_property_def_string() {
    let prop = PropertyDef::string(Some("A test property".to_string()));
    assert_eq!(prop.kind, "string");
    assert_eq!(prop.description, Some("A test property".to_string()));
}

#[test]
fn test_property_def_enum() {
    let prop = PropertyDef::enum_type(
        Some("Choose a color".to_string()),
        vec!["red".to_string(), "green".to_string(), "blue".to_string()],
    );
    assert_eq!(prop.kind, "string");
    assert!(prop.enum_values.is_some());
    assert_eq!(prop.enum_values.unwrap().len(), 3);
}

#[test]
fn test_property_def_array() {
    let items = PropertyDef::string(Some("Item in array".to_string()));
    let prop = PropertyDef::array(Some("An array of strings".to_string()), items);
    assert_eq!(prop.kind, "array");
    assert!(prop.items.is_some());
}

#[test]
fn test_tool_with_cache() {
    let mut tool = Tool::new("cached_tool");
    tool.with_cache();
    assert!(tool.cache_control.is_some());
}

#[test]
fn test_tool_to_value() {
    let mut tool = Tool::new("test");
    tool.description("A test tool");
    let value = tool.to_value();
    assert!(matches!(value, Json::Object(_)));
    assert_eq!(value.member("name"), Some(&Json::Str("test".to_string())));
}

#[test]
fn tool_to_value_exact_tree() {
    let mut tool = Tool::new("get_weather");
    tool.description("Weather")
        .add_string_property("location", Some("City"), true)
        .add_enum_property("unit", None, vec!["c", "f"], false)
        .with_cache();
    let expected = Json::Object(vec![
        ("name".to_string(), Json::Str("get_weather".to_string())),
        ("description".to_string(), Json::Str("Weather".to_string())),
        (
            "input_schema".to_string(),
            Json::Object(vec![
                ("type".to_string(), Json::Str("object".to_string())),
                (
                    "properties".to_string(),
                    Json::Object(vec![
                        (
                            "location".to_string(),
                            Json::Object(vec![
                                ("type".to_string(), Json::Str("string".to_string())),
                                ("description".to_string(), Json::Str("City".to_string())),
                            ]),
                        ),
                        (
                            "unit".to_string(),
                            Json::Object(vec![
                                ("type".to_string(), Json::Str("string".to_string())),
                                (
                                    "enum".to_string(),
                                    Json::Array(vec![
                                        Json::Str("c".to_string()),
                                        Json::Str("f".to_string()),
                                    ]),
                                ),
                            ]),
                        ),
                    ]),
                ),
                ("required".to_string(), Json::Array(vec![Json::Str("location".to_string())])),
            ]),
        ),
        (
            "cache_control".to_string(),
            Json::Object(vec![("type".to_string(), Json::Str("ephemeral".to_string()))]),
        ),
    ]);
    assert_eq!(tool.to_value(), expected);
    assert_eq!(
        tool.to_value().to_text().unwrap(),
        r#"{"cache_control":{"type":"ephemeral"},"description":"Weather","input_schema":{"properties":{"location":{"description":"City","type":"string"},"unit":{"enum":["c","f"],"type":"string"}},"required":["location"],"type":"object"},"name":"get_weather"}"#
    );
}

#[test]
fn new_tool_has_an_empty_list_of_properties() {
    let tool = Tool::new("t");
    assert_eq!(tool.name, "t");
    assert!(tool.description.is_none());
    assert!(tool.cache_control.is_none());
    assert_eq!(tool.input_schema.kind, "object");
    assert_eq!(tool.input_schema.properties.as_ref().map(|p| p.len()), Some(0));
    assert!(tool.input_schema.required.is_none());
    assert!(tool.input_schema.additional_properties.is_none());
    let built = tool.build();
    assert_eq!(built.name, "t");
}

#[test]
fn adding_under_a_taken_name_replaces_in_place() {
    let mut tool = Tool::new("t");
    tool.add_string_property("a", Some("first"), true)
        .add_boolean_property("b", None, false)
        .add_number_property("a", Some("second"), true);
    let properties = tool.input_schema.properties.as_ref().unwrap();
    assert_eq!(properties.len(), 2);
    assert_eq!(properties[0].0, "a");
    assert_eq!(properties[0].1.kind, "number");
    assert_eq!(properties[0].1.description.as_deref(), Some("second"));
    assert_eq!(properties[1].0, "b");
    assert_eq!(properties[1].1.kind, "boolean");
    assert_eq!(tool.input_schema.required, Some(vec!["a".to_string(), "a".to_string()]));
}

#[test]
fn properties_come_into_being_when_absent() {
    let mut tool = Tool::new("t");
    tool.input_schema = JsonSchema::empty_object();
    assert!(tool.input_schema.properties.is_none());
    tool.add_array_property("tags", Some("Tags"), PropertyDef::string(None), false);
    let properties = tool.input_schema.properties.as_ref().unwrap();
    assert_eq!(properties.len(), 1);
    assert_eq!(properties[0].0, "tags");
    assert_eq!(properties[0].1.kind, "array");
    assert_eq!(properties[0].1.items.as_ref().unwrap().kind, "string");
    assert!(tool.input_schema.required.is_none());
}

#[test]
fn property_def_kinds() {
    assert_eq!(PropertyDef::number(None).kind, "number");
    assert_eq!(PropertyDef::integer(None).kind, "integer");
    assert_eq!(PropertyDef::boolean(None).kind, "boolean");
    let inner = vec![("x".to_string(), PropertyDef::integer(Some("an x".to_string())))];
    let mut object = PropertyDef::object(Some("point".to_string()), inner);
    assert_eq!(object.kind, "object");
    assert_eq!(object.properties.as_ref().unwrap().len(), 1);
    object.with_default(Json::Object(vec![("x".to_string(), Json::Unsigned(0))]));
    assert_eq!(
        object.to_json().to_text().unwrap(),
        r#"{"default":{"x":0},"description":"point","properties":{"x":{"description":"an x","type":"integer"}},"type":"object"}"#
    );
}

#[test]
fn tool_cache_control_is_ephemeral() {
    let control = CacheControl::ephemeral();
    assert_eq!(control.kind, "ephemeral");
    assert_eq!(control.to_json().to_text().unwrap(), r#"{"type":"ephemeral"}"#);
    let schema = JsonSchema::object();
    assert_eq!(schema.to_json().to_text().unwrap(), r#"{"properties":{},"type":"object"}"#);
    assert_eq!(JsonSchema::empty_object().to_json().to_text().unwrap(), r#"{"type":"object"}"#);
}

fn names(property: &PropertyDef) -> Vec<&str> {
    property.properties.as_ref().unwrap().iter().map(|(name, _)| name.as_str()).collect()
}

#[test]
fn object_keeps_distinct_names_as_given() {
    let property = PropertyDef::object(
        None,
        vec![
            ("b".to_string(), PropertyDef::string(None)),
            ("a".to_string(), PropertyDef::number(None)),
            ("c".to_string(), PropertyDef::boolean(None)),
        ],
    );
    assert_eq!(names(&property), vec!["b", "a", "c"]);
    let kinds: Vec<&str> =
        property.properties.as_ref().unwrap().iter().map(|(_, p)| p.kind.as_str()).collect();
    assert_eq!(kinds, vec!["string", "number", "boolean"]);
    assert_eq!(PropertyDef::object(None, vec![]).properties.map(|p| p.len()), Some(0));
}

#[test]
fn object_lets_the_later_of_two_names_stand() {
    let property = PropertyDef::object(
        Some("o".to_string()),
        vec![
            ("a".to_string(), PropertyDef::string(Some("first".to_string()))),
            ("b".to_string(), PropertyDef::number(None)),
            ("a".to_string(), PropertyDef::integer(Some("second".to_string()))),
            ("b".to_string(), PropertyDef::boolean(None)),
            ("a".to_string(), PropertyDef::boolean(Some("third".to_string()))),
        ],
    );
    assert_eq!(names(&property), vec!["a", "b"]);
    let entries = property.properties.as_ref().unwrap();
    assert_eq!(entries[0].1.kind, "boolean");
    assert_eq!(entries[0].1.description.as_deref(), Some("third"));
    assert_eq!(entries[1].1.kind, "boolean");
    assert_eq!(property.kind, "object");
    assert_eq!(property.description.as_deref(), Some("o"));
}

#[test]
fn adding_properties_never_repeats_a_name() {
    let mut tool = Tool::new("t");
    for name in ["x", "y", "x", "z", "y", "x"] {
        tool.add_string_property(name, None, false);
        tool.add_enum_property(name, None, vec!["v"], false);
        tool.add_array_property(name, None, PropertyDef::string(None), false);
    }
    let properties = tool.input_schema.properties.as_ref().unwrap();
    let found: Vec<&str> = properties.iter().map(|(name, _)| name.as_str()).collect();
    assert_eq!(found, vec!["x", "y", "z"]);
    assert!(properties.iter().all(|(_, property)| property.kind == "array"));
}
