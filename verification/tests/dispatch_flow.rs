use push_relay::dispatch::{finish_push, prepare_push, transport_failure, PushRequest, PushStep};
use push_relay::message::MessageType;
use push_relay::registry::PlatformRegistry;
use push_relay::wxwork::WxWorkPlatformFactory;

fn request(platform: &str, config: &str, message: MessageType) -> PushRequest {
    PushRequest {
        platform: platform.to_string(),
        config: config.to_string(),
        message,
    }
}

fn registry_with_wxwork() -> PlatformRegistry<WxWorkPlatformFactory> {
    let mut registry = PlatformRegistry::new();
    registry.register(WxWorkPlatformFactory);
    registry
}

#[test]
fn test_unknown_platform_rejected() {
    let registry = registry_with_wxwork();
    let message = MessageType::Text("hi".to_string());
    match prepare_push(&registry, request("unknown", "{\"token\":\"abc\"}", message)) {
        PushStep::Reject { status, response } => {
            assert_eq!(status, 400);
            assert!(!response.result.success);
            assert_eq!(
                response.result.response.as_deref(),
                Some("Platform 'unknown' not found")
            );
        }
        _ => panic!("an unknown platform must be rejected"),
    }
}

#[test]
fn test_bad_config_rejected() {
    let registry = registry_with_wxwork();
    let message = MessageType::Text("hi".to_string());
    match prepare_push(&registry, request("wxwork", "{}", message)) {
        PushStep::Reject { status, response } => {
            assert_eq!(status, 400);
            assert!(!response.result.success);
            let text = response.result.response.unwrap();
            assert!(text.starts_with("Failed to create platform: Configuration error: "));
        }
        _ => panic!("a bad configuration must be rejected"),
    }
}

#[test]
fn test_unsupported_message_fails_delivery() {
    let registry = registry_with_wxwork();
    let message = MessageType::Image { url: "u".to_string(), caption: None };
    match prepare_push(&registry, request("wxwork", "{\"token\":\"abc\"}", message)) {
        PushStep::Reject { status, response } => {
            assert_eq!(status, 200);
            assert!(!response.result.success);
            assert_eq!(
                response.result.response.as_deref(),
                Some("Message error: Unsupported message type for WxWork Bot")
            );
        }
        _ => panic!("an unsupported message must fail before any delivery"),
    }
}

#[test]
fn test_successful_push_flow() {
    let registry = registry_with_wxwork();
    let message = MessageType::Text("hi".to_string());
    match prepare_push(&registry, request("wxwork", "{\"token\":\"abc\"}", message)) {
        PushStep::Deliver { platform, url, body } => {
            assert_eq!(url, "https://qyapi.weixin.qq.com/cgi-bin/webhook/send?key=abc");
            assert_eq!(
                body,
                "{\"msgtype\":\"text\",\"text\":{\"content\":\"hi\",\"mentioned_list\":[],\"mentioned_mobile_list\":[]}}"
            );
            let (response, status) = finish_push(&platform, 200, "{\"errcode\":0,\"errmsg\":\"ok\"}");
            assert_eq!(status, 200);
            assert!(response.result.success);
            assert_eq!(
                response.result.response.as_deref(),
                Some("{\"errcode\":0,\"errmsg\":\"ok\"}")
            );
        }
        _ => panic!("a valid push must reach delivery"),
    }
}

#[test]
fn test_api_error_push_flow() {
    let registry = registry_with_wxwork();
    let message = MessageType::Text("hi".to_string());
    match prepare_push(&registry, request("wxwork", "{\"token\":\"abc\"}", message)) {
        PushStep::Deliver { platform, .. } => {
            let (response, status) =
                finish_push(&platform, 200, "{\"errcode\":93000,\"errmsg\":\"invalid token\"}");
            assert_eq!(status, 200);
            assert!(!response.result.success);
            let text = response.result.response.unwrap();
            assert!(text.contains("93000"));
        }
        _ => panic!("a valid push must reach delivery"),
    }
}

#[test]
fn test_transport_failure_response() {
    let (response, status) = transport_failure("connection refused".to_string());
    assert_eq!(status, 200);
    assert!(!response.result.success);
    assert_eq!(
        response.result.response.as_deref(),
        Some("Network error: connection refused")
    );
}
