use push_relay::error::PushError;
use push_relay::message::MessageType;
use push_relay::platform::{PlatformFactory, PushInitConfig, PushPlatform, PushPlatformCapabilities};
use push_relay::wxwork::{
    parse_envelope, WxWorkConfig, WxWorkGroupBotPlatform, WxWorkPlatformFactory,
};

fn platform_with_token(token: &str) -> WxWorkGroupBotPlatform {
    WxWorkGroupBotPlatform::new(WxWorkConfig { token: token.to_string() })
}

#[test]
fn test_webhook_url() {
    let config = WxWorkConfig { token: "abc".to_string() };
    assert_eq!(
        config.webhook_url(),
        "https://qyapi.weixin.qq.com/cgi-bin/webhook/send?key=abc"
    );
    assert_eq!(config.platform_name(), "wxwork");
    assert!(config.secret().is_none());
    assert_eq!(config.timeout(), 30);
    assert_eq!(config.retry_count(), 3);
}

#[test]
fn test_create_ok() {
    let factory = WxWorkPlatformFactory;
    let platform = factory.create("{\"token\":\"abc\"}").expect("create should accept a token");
    let info = platform.platform_info();
    assert_eq!(info.name, "wxwork");
    assert!(info.supports_markdown);
    assert!(!info.supports_rich_text);
    assert!(!info.supports_images);
    assert_eq!(info.features, vec!["text".to_string(), "markdown".to_string()]);
}

#[test]
fn test_create_tolerates_extra_fields() {
    let factory = WxWorkPlatformFactory;
    let platform = factory
        .create("{\"token\":\"abc\",\"x\":{\"nested\":[1,true]},\"y\":null,\"z\":2.5}")
        .expect("extra fields of any shape must not block creation");
    let wire = platform.send_text("hi").unwrap();
    assert_eq!(wire.url, "https://qyapi.weixin.qq.com/cgi-bin/webhook/send?key=abc");
}

#[test]
fn test_create_missing_token_fails() {
    let factory = WxWorkPlatformFactory;
    for config in ["{}", "{\"other\":\"x\"}", "{\"token\":5}"] {
        match factory.create(config) {
            Err(PushError::ConfigError(_)) => {}
            _ => panic!("create must fail with a configuration error"),
        }
    }
}

#[test]
fn test_create_malformed_config_fails() {
    let factory = WxWorkPlatformFactory;
    match factory.create("not json at all") {
        Err(PushError::ConfigError(_)) => {}
        _ => panic!("create must fail with a configuration error"),
    }
}

#[test]
fn test_text_payload() {
    let platform = platform_with_token("abc");
    let wire = platform.send(MessageType::Text("hi".to_string())).unwrap();
    assert_eq!(wire.url, "https://qyapi.weixin.qq.com/cgi-bin/webhook/send?key=abc");
    assert_eq!(
        wire.body,
        "{\"msgtype\":\"text\",\"text\":{\"content\":\"hi\",\"mentioned_list\":[],\"mentioned_mobile_list\":[]}}"
    );
}

#[test]
fn test_text_with_mention_payload() {
    let platform = platform_with_token("abc");
    let wire = platform
        .send_text_with_mention("Test", vec!["@all".to_string()])
        .unwrap();
    assert_eq!(
        wire.body,
        "{\"msgtype\":\"text\",\"text\":{\"content\":\"Test\",\"mentioned_list\":[\"@all\"],\"mentioned_mobile_list\":[]}}"
    );
}

#[test]
fn test_markdown_payload() {
    let platform = platform_with_token("t");
    let wire = platform.send_markdown("# Hello").unwrap();
    assert_eq!(
        wire.body,
        "{\"msgtype\":\"markdown\",\"markdown\":{\"content\":\"# Hello\"}}"
    );
}

#[test]
fn test_payload_escaping() {
    let platform = platform_with_token("t");
    let wire = platform.send_text("a\"b\\c\nd").unwrap();
    assert_eq!(
        wire.body,
        "{\"msgtype\":\"text\",\"text\":{\"content\":\"a\\\"b\\\\c\\nd\",\"mentioned_list\":[],\"mentioned_mobile_list\":[]}}"
    );
}

#[test]
fn test_unsupported_messages_fail() {
    let platform = platform_with_token("t");
    let rich = MessageType::Rich {
        title: "t".to_string(),
        content: "c".to_string(),
        url: None,
    };
    let image = MessageType::Image { url: "u".to_string(), caption: None };
    let link = MessageType::Link {
        title: "t".to_string(),
        description: "d".to_string(),
        url: "u".to_string(),
        image_url: None,
    };
    for message in [rich, image, link] {
        match platform.send(message) {
            Err(PushError::MessageError(m)) => {
                assert_eq!(m, "Unsupported message type for WxWork Bot");
            }
            _ => panic!("unsupported shapes must fail with a message error"),
        }
    }
}

#[test]
fn test_typed_unsupported_sends_fail() {
    let platform = platform_with_token("t");
    assert!(matches!(
        platform.send_rich("t", "c", None),
        Err(PushError::PlatformError(_))
    ));
    assert!(matches!(
        platform.send_image("u", Some("cap")),
        Err(PushError::PlatformError(_))
    ));
    assert!(matches!(
        platform.send_link("t", "d", "u", None),
        Err(PushError::PlatformError(_))
    ));
}

#[test]
fn test_init_and_health() {
    let mut platform = platform_with_token("t");
    assert!(platform.init().is_ok());
    assert_eq!(platform.health_check().unwrap(), true);
}

#[test]
fn test_interpret_success() {
    let platform = platform_with_token("t");
    let body = "{\"errcode\":0,\"errmsg\":\"ok\"}";
    let result = platform.interpret_response(200, body).unwrap();
    assert!(result.success);
    assert_eq!(result.response.as_deref(), Some(body));
    assert!(result.message_id.is_none());
}

#[test]
fn test_interpret_api_error() {
    let platform = platform_with_token("t");
    let body = "{\"errcode\":93000,\"errmsg\":\"invalid token\"}";
    match platform.interpret_response(200, body) {
        Err(PushError::PlatformError(m)) => {
            assert_eq!(m, "WxWork API Error: code=93000, message=invalid token");
        }
        _ => panic!("a nonzero errcode must fail with a platform error"),
    }
}

#[test]
fn test_interpret_http_failure() {
    let platform = platform_with_token("t");
    match platform.interpret_response(500, "oops") {
        Err(PushError::NetworkError(m)) => {
            assert_eq!(m, "Request failed with status: 500, body: oops");
        }
        _ => panic!("a non-success status must fail with a network error"),
    }
}

#[test]
fn test_interpret_success_with_extra_fields() {
    let platform = platform_with_token("t");
    let body = "{\"errcode\":0,\"errmsg\":\"ok\",\"data\":{\"items\":[]}}";
    let result = platform.interpret_response(200, body).unwrap();
    assert!(result.success);
    assert_eq!(result.response.as_deref(), Some(body));
}

#[test]
fn test_interpret_leading_zero_code_rejected() {
    let platform = platform_with_token("t");
    assert!(matches!(
        platform.interpret_response(200, "{\"errcode\":00,\"errmsg\":\"ok\"}"),
        Err(PushError::PlatformError(_))
    ));
}

#[test]
fn test_interpret_garbage_body() {
    let platform = platform_with_token("t");
    assert!(matches!(
        platform.interpret_response(200, "not json"),
        Err(PushError::PlatformError(_))
    ));
}

#[test]
fn test_interpret_status_boundaries() {
    let platform = platform_with_token("t");
    let body = "{\"errcode\":0,\"errmsg\":\"ok\"}";
    assert!(platform.interpret_response(299, body).unwrap().success);
    match platform.interpret_response(300, body) {
        Err(PushError::NetworkError(m)) => {
            assert!(m.starts_with("Request failed with status: 300"));
        }
        _ => panic!("status 300 must fail with a network error"),
    }
    assert!(matches!(
        platform.interpret_response(199, body),
        Err(PushError::NetworkError(_))
    ));
}

#[test]
fn test_unicode_content_passes_through() {
    let platform = platform_with_token("t");
    let wire = platform.send_text("héllo 世界").unwrap();
    assert_eq!(
        wire.body,
        "{\"msgtype\":\"text\",\"text\":{\"content\":\"héllo 世界\",\"mentioned_list\":[],\"mentioned_mobile_list\":[]}}"
    );
    assert_eq!(
        parse_envelope("{\"errcode\":0,\"errmsg\":\"成功\"}"),
        Some((0, "成功".to_string()))
    );
}

#[test]
fn test_parse_envelope_shapes() {
    assert_eq!(
        parse_envelope(" { \"errcode\" : 0 , \"errmsg\" : \"ok\" } "),
        Some((0, "ok".to_string()))
    );
    assert_eq!(
        parse_envelope("{\"errmsg\":\"a\\\"b\",\"errcode\":-7,\"extra\":\"x\"}"),
        Some((-7, "a\"b".to_string()))
    );
    assert_eq!(parse_envelope("{\"errcode\":0}"), None);
    assert_eq!(parse_envelope("{\"errcode\":\"0\",\"errmsg\":\"ok\"}"), None);
    assert_eq!(parse_envelope("[]"), None);
    assert_eq!(parse_envelope(""), None);
}
