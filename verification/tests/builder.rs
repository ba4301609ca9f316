use push_relay::message::{MessageBuilder, MessageType, Priority};
use push_relay::result::PushResult;

#[test]
fn test_message_builder() {
    let text_msg = MessageBuilder::text("Hello World").build();
    match text_msg {
        MessageType::Text(content) => assert_eq!(content, "Hello World"),
        _ => panic!("Expected text message"),
    }

    let md_msg = MessageBuilder::markdown("# Hello").build();
    match md_msg {
        MessageType::Markdown(content) => assert_eq!(content, "# Hello"),
        _ => panic!("Expected markdown message"),
    }
}

#[test]
fn test_push_result_default() {
    let result = PushResult::default();
    assert_eq!(result.success, false);
    assert!(result.message_id.is_none());
}

#[test]
fn test_rich_builder() {
    let msg = MessageBuilder::rich("Title", "Body").build();
    match msg {
        MessageType::Rich { title, content, url } => {
            assert_eq!(title, "Title");
            assert_eq!(content, "Body");
            assert!(url.is_none());
        }
        _ => panic!("Expected rich message"),
    }
}

#[test]
fn test_builder_settings_keep_message() {
    let msg = MessageBuilder::text("ping")
        .priority(Priority::Urgent)
        .mention("alice")
        .mentions(vec!["bob".to_string(), "carol".to_string()])
        .build();
    match msg {
        MessageType::Text(content) => assert_eq!(content, "ping"),
        _ => panic!("Expected text message"),
    }
}

#[test]
fn test_default_result_has_no_response() {
    let result = PushResult::default();
    assert!(result.response.is_none());
}
