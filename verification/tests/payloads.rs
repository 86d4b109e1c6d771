use loquat::payloads::adapter::{from_any, to_any, try_parse_any};
use loquat::payloads::registry::{default_registry, deserialize, PayloadRegistry, RegistryError};
use loquat::payloads::types::{
    check_type_url, BlobPayload, DecodedPayload, EventPayload, PayloadError, PayloadType,
    ProtoAny, TextFormat, TextPayload, TypeUrl,
};

#[test]
fn test_text_payload_format() {
    let payload = TextPayload::new("**Bold**").with_format(TextFormat::Markdown);
    assert_eq!(payload.format, TextFormat::Markdown);
}

#[test]
fn test_blob_payload_url() {
    let payload = BlobPayload::from_url(
        "https://example.com/file.jpg".to_string(),
        "image/jpeg".to_string(),
    );
    assert_eq!(payload.url, Some("https://example.com/file.jpg".to_string()));
    assert_eq!(payload.data, Vec::<u8>::new());
}

#[test]
fn test_text_format_display() {
    assert_eq!(TextFormat::Plain.to_string(), "plain");
    assert_eq!(TextFormat::Markdown.to_string(), "markdown");
    assert_eq!(TextFormat::Html.to_string(), "html");
    assert_eq!(TextFormat::Json.to_string(), "json");
}

#[test]
fn test_to_any_text() {
    let any = to_any::<TextPayload>(br#"{"content":"Hello, world!","format":"Plain"}"#.to_vec());
    assert_eq!(any.type_url, TextPayload::type_url());
    assert!(!any.value.is_empty());
}

#[test]
fn test_from_any_text() {
    let any = to_any::<TextPayload>(br#"{"content":"Test","format":"Plain"}"#.to_vec());
    let restored = from_any::<TextPayload>(&any, Ok(TextPayload::new("Test"))).unwrap();
    assert_eq!(restored.content, "Test");
    assert_eq!(restored.format, TextFormat::Plain);
}

#[test]
fn test_to_any_blob() {
    let any = to_any::<BlobPayload>(br#"{"data":[1,2,3]}"#.to_vec());
    assert_eq!(any.type_url, BlobPayload::type_url());
}

#[test]
fn test_from_any_blob() {
    let data = vec![10u8, 20u8];
    let blob = BlobPayload::new(data.clone(), "application/octet-stream".to_string());
    let any = to_any::<BlobPayload>(br#"{"data":[10,20]}"#.to_vec());
    let restored = from_any::<BlobPayload>(&any, Ok(blob)).unwrap();
    assert_eq!(restored.data, data);
}

#[test]
fn test_try_parse_any_text() {
    let any = to_any::<TextPayload>(br#"{"content":"Test"}"#.to_vec());
    let payload = try_parse_any(
        &any,
        Ok(TextPayload::new("Test")),
        Err("missing field `data`".to_string()),
        Err("missing field `event_type`".to_string()),
    )
    .unwrap();
    match payload {
        DecodedPayload::Text(text) => assert_eq!(text.content, "Test"),
        _ => panic!("Failed to read a TextPayload"),
    }
}

#[test]
fn test_try_parse_any_blob() {
    let data = vec![5u8, 10u8];
    let blob = BlobPayload::new(data.clone(), "application/octet-stream".to_string());
    let any = to_any::<BlobPayload>(br#"{"data":[5,10]}"#.to_vec());
    let payload = try_parse_any(
        &any,
        Err("missing field `content`".to_string()),
        Ok(blob),
        Err("missing field `event_type`".to_string()),
    )
    .unwrap();
    match payload {
        DecodedPayload::Blob(blob) => assert_eq!(blob.data, data),
        _ => panic!("Failed to read a BlobPayload"),
    }
}

#[test]
fn test_try_parse_any_unknown() {
    let any = ProtoAny { type_url: "unknown.type".to_string(), value: vec![1, 2, 3] };
    let result = try_parse_any(
        &any,
        Err("bad".to_string()),
        Err("bad".to_string()),
        Err("bad".to_string()),
    );
    assert!(result.is_err());
    match result.unwrap_err() {
        PayloadError::UnknownType(type_url) => assert_eq!(type_url, "unknown.type"),
        _ => panic!("Expected UnknownType error"),
    }
}

#[test]
fn try_parse_any_ignores_a_decode_under_another_url() {
    let any = to_any::<TextPayload>(br#"{}"#.to_vec());
    let blob = BlobPayload::new(vec![1], "x".to_string());
    let result = try_parse_any(&any, Err("bad".to_string()), Ok(blob), Err("bad".to_string()));
    match result {
        Err(PayloadError::UnknownType(u)) => assert_eq!(u, TextPayload::type_url()),
        _ => panic!("Expected UnknownType error"),
    }
}

#[test]
fn test_type_mismatch_error() {
    let any = to_any::<TextPayload>(br#"{"content":"test"}"#.to_vec());
    let result = from_any::<BlobPayload>(&any, Err("never used".to_string()));
    assert!(result.is_err());
    match result.unwrap_err() {
        PayloadError::TypeMismatch { expected, actual } => {
            assert_eq!(expected, BlobPayload::type_url());
            assert_eq!(actual, TextPayload::type_url());
        }
        _ => panic!("Expected TypeMismatch error"),
    }
}

#[test]
fn from_any_reports_a_decoder_failure() {
    let any = to_any::<TextPayload>(b"not json".to_vec());
    match from_any::<TextPayload>(&any, Err("expected value".to_string())) {
        Err(PayloadError::DeserializationError(m)) => assert_eq!(m, "expected value"),
        _ => panic!("Expected DeserializationError"),
    }
}

#[test]
fn check_type_url_accepts_only_the_expected_url() {
    let any = ProtoAny { type_url: "a".to_string(), value: vec![] };
    assert!(check_type_url(&any, "a").is_ok());
    assert!(check_type_url(&any, "b").is_err());
}

#[test]
fn types_test_text_payload() {
    let payload = TextPayload::new("Hello, world!");
    assert_eq!(payload.payload_type_name(), "TextPayload");
    assert_eq!(payload.content, "Hello, world!");
    assert_eq!(payload.size_estimate(), 13);
}

#[test]
fn types_test_blob_payload() {
    let data = vec![1u8, 2u8, 3u8, 4u8];
    let payload = BlobPayload::new(data.clone(), "application/octet-stream".to_string());
    assert_eq!(payload.payload_type_name(), "BlobPayload");
    assert_eq!(payload.data, data);
    assert_eq!(payload.size(), 4);
}

#[test]
fn event_payload_size_counts_the_data_text() {
    let payload = EventPayload::new("user.login", r#"{"message":"test"}"#);
    assert_eq!(payload.payload_type_name(), "EventPayload");
    assert_eq!(payload.size_estimate(), 18);
}

#[test]
fn test_registry_new() {
    let registry = PayloadRegistry::new();
    assert_eq!(registry.count(), 0);
}

#[test]
fn test_register_type() {
    let mut registry = PayloadRegistry::new();
    registry.register::<TextPayload>().unwrap();
    assert!(registry.is_registered(TextPayload::type_url()));
    assert_eq!(registry.count(), 1);
}

#[test]
fn registry_test_register_duplicate() {
    let mut registry = PayloadRegistry::new();
    registry.register::<TextPayload>().unwrap();
    let result = registry.register::<TextPayload>();
    assert!(result.is_err());
    match result.unwrap_err() {
        RegistryError::AlreadyRegistered(type_url) => {
            assert_eq!(type_url, TextPayload::type_url())
        }
        _ => panic!("Expected AlreadyRegistered error"),
    }
}

#[test]
fn test_deserialize() {
    let mut registry = PayloadRegistry::new();
    registry.register::<TextPayload>().unwrap();
    let any = to_any::<TextPayload>(br#"{"content":"Test"}"#.to_vec());
    let payload = deserialize(
        &registry,
        &any.type_url,
        &any,
        Ok(TextPayload::new("Test")),
        Err("x".to_string()),
        Err("x".to_string()),
    )
    .unwrap();
    match payload {
        DecodedPayload::Text(t) => assert_eq!(t.content, "Test"),
        _ => panic!("Failed to read a TextPayload"),
    }
}

#[test]
fn test_deserialize_unregistered() {
    let registry = PayloadRegistry::new();
    let any = ProtoAny { type_url: TextPayload::type_url().to_string(), value: vec![1, 2, 3] };
    let result = deserialize(
        &registry,
        &any.type_url,
        &any,
        Ok(TextPayload::new("x")),
        Err("x".to_string()),
        Err("x".to_string()),
    );
    assert!(result.is_err());
    match result.unwrap_err() {
        PayloadError::UnknownType(type_url) => assert_eq!(type_url, TextPayload::type_url()),
        _ => panic!("Expected UnknownType error"),
    }
}

#[test]
fn test_registered_types() {
    let mut registry = PayloadRegistry::new();
    registry.register::<TextPayload>().unwrap();
    let types = registry.registered_types();
    assert_eq!(types.len(), 1);
    assert!(types.contains(&TextPayload::type_url().to_string()));
}

#[test]
fn test_default_registry() {
    let registry = default_registry();
    assert!(registry.is_registered(TextPayload::type_url()));
    assert!(registry.is_registered(BlobPayload::type_url()));
    assert!(registry.is_registered(EventPayload::type_url()));
    assert!(registry.count() >= 3);
    assert_eq!(registry.count(), 3);
}

#[test]
fn test_multiple_registries() {
    let mut registry1 = PayloadRegistry::new();
    let mut registry2 = PayloadRegistry::new();
    registry1.register::<TextPayload>().unwrap();
    assert!(!registry2.is_registered(TextPayload::type_url()));
    registry2.register::<BlobPayload>().unwrap();
    assert!(!registry1.is_registered(BlobPayload::type_url()));
}

#[test]
fn check_registered_names_the_unknown_url() {
    let registry = PayloadRegistry::new();
    match registry.check_registered("x.y") {
        Err(PayloadError::UnknownType(u)) => assert_eq!(u, "x.y"),
        _ => panic!("Expected UnknownType"),
    }
}
