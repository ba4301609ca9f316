use push_relay::decimal::{i64_to_string, u64_to_string};
use push_relay::error::PushError;
use push_relay::json::{json_quote, json_quote_array, lookup_field, parse_flat_object, JsonScalar};

#[test]
fn test_decimal_rendering() {
    assert_eq!(u64_to_string(0), "0");
    assert_eq!(u64_to_string(93000), "93000");
    assert_eq!(i64_to_string(-42), "-42");
    assert_eq!(i64_to_string(7), "7");
}

#[test]
fn test_error_descriptions() {
    assert_eq!(
        PushError::NetworkError("down".to_string()).describe(),
        "Network error: down"
    );
    assert_eq!(
        PushError::AuthError("denied".to_string()).describe(),
        "Authentication error: denied"
    );
    assert_eq!(
        PushError::ConfigError("bad".to_string()).describe(),
        "Configuration error: bad"
    );
    assert_eq!(
        PushError::MessageError("shape".to_string()).describe(),
        "Message error: shape"
    );
    assert_eq!(
        PushError::PlatformError("code".to_string()).describe(),
        "Platform error: code"
    );
}

#[test]
fn test_json_quote() {
    assert_eq!(json_quote("plain"), "\"plain\"");
    assert_eq!(json_quote("a\"b"), "\"a\\\"b\"");
    assert_eq!(json_quote("tab\there"), "\"tab\\there\"");
    assert_eq!(json_quote("\u{1}"), "\"\\u0001\"");
    assert_eq!(json_quote("\u{1f}"), "\"\\u001f\"");
    assert_eq!(json_quote("\u{8}\u{c}"), "\"\\b\\f\"");
}

#[test]
fn test_json_quote_array() {
    let empty: Vec<String> = Vec::new();
    assert_eq!(json_quote_array(&empty), "[]");
    let items = vec!["a".to_string(), "b\"c".to_string()];
    assert_eq!(json_quote_array(&items), "[\"a\",\"b\\\"c\"]");
}

#[test]
fn test_parse_flat_object_shapes() {
    assert_eq!(parse_flat_object("{}").unwrap().len(), 0);
    let fields = parse_flat_object("{\"a\":1,\"b\":\"two\"}").unwrap();
    assert_eq!(fields.len(), 2);
    match lookup_field(&fields, "a") {
        Some(JsonScalar::Int(v)) => assert_eq!(*v, 1),
        _ => panic!("expected an integer field"),
    }
    match lookup_field(&fields, "b") {
        Some(JsonScalar::Str(v)) => assert_eq!(v, "two"),
        _ => panic!("expected a string field"),
    }
    assert!(lookup_field(&fields, "c").is_none());
}

#[test]
fn test_parse_flat_object_rejects() {
    assert!(parse_flat_object("").is_none());
    assert!(parse_flat_object("{").is_none());
    assert!(parse_flat_object("{\"a\":}").is_none());
    assert!(parse_flat_object("{\"a\":1,}").is_none());
    assert!(parse_flat_object("{\"a\":1} trailing").is_none());
    assert!(parse_flat_object("{\"a\":00}").is_none());
    assert!(parse_flat_object("{\"a\":01}").is_none());
    assert!(parse_flat_object("{\"a\":-}").is_none());
    assert!(parse_flat_object("{\"a\":1.}").is_none());
    assert!(parse_flat_object("{\"a\":1e}").is_none());
    assert!(parse_flat_object("{\"a\":nul}").is_none());
    assert!(parse_flat_object("{\"a\":\"\\x\"}").is_none());
    assert!(parse_flat_object("{\"a\":\"\\uD800\"}").is_none());
    assert!(parse_flat_object("{\"a\":\"\\uDE00\"}").is_none());
    assert!(parse_flat_object("{\"a\":[1,2}").is_none());
}

#[test]
fn test_parse_flat_object_tolerates_other_values() {
    let fields = parse_flat_object(
        "{\"a\":{\"inner\":[1,2,{}]},\"b\":true,\"c\":null,\"d\":-1.5e-3,\"e\":12345678901234567890,\"f\":7}",
    )
    .unwrap();
    assert!(matches!(lookup_field(&fields, "a"), Some(JsonScalar::Other)));
    assert!(matches!(lookup_field(&fields, "b"), Some(JsonScalar::Other)));
    assert!(matches!(lookup_field(&fields, "c"), Some(JsonScalar::Other)));
    assert!(matches!(lookup_field(&fields, "d"), Some(JsonScalar::Other)));
    assert!(matches!(lookup_field(&fields, "e"), Some(JsonScalar::Other)));
    match lookup_field(&fields, "f") {
        Some(JsonScalar::Int(v)) => assert_eq!(*v, 7),
        _ => panic!("expected an integer field"),
    }
}

#[test]
fn test_parse_unicode_escapes() {
    let fields = parse_flat_object("{\"k\":\"\\u0041\\b\\f\\uD83D\\uDE00\"}").unwrap();
    match lookup_field(&fields, "k") {
        Some(JsonScalar::Str(v)) => assert_eq!(v, "A\u{8}\u{c}\u{1F600}"),
        _ => panic!("expected a string field"),
    }
}

#[test]
fn test_parse_signed_integers() {
    let fields = parse_flat_object("{\"a\":-0,\"b\":-12,\"c\":0}").unwrap();
    match lookup_field(&fields, "a") {
        Some(JsonScalar::Int(v)) => assert_eq!(*v, 0),
        _ => panic!("expected an integer field"),
    }
    match lookup_field(&fields, "b") {
        Some(JsonScalar::Int(v)) => assert_eq!(*v, -12),
        _ => panic!("expected an integer field"),
    }
    match lookup_field(&fields, "c") {
        Some(JsonScalar::Int(v)) => assert_eq!(*v, 0),
        _ => panic!("expected an integer field"),
    }
}

#[test]
fn test_parse_flat_object_escapes_and_duplicates() {
    let fields = parse_flat_object("{\"k\":\"line\\nbreak\\t\\\"q\\\"\"}").unwrap();
    match lookup_field(&fields, "k") {
        Some(JsonScalar::Str(v)) => assert_eq!(v, "line\nbreak\t\"q\""),
        _ => panic!("expected a string field"),
    }
    let dup = parse_flat_object("{\"k\":1,\"k\":2}").unwrap();
    match lookup_field(&dup, "k") {
        Some(JsonScalar::Int(v)) => assert_eq!(*v, 1),
        _ => panic!("expected an integer field"),
    }
}
