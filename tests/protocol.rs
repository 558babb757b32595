use kick_api::{
    chatroom_channel, default_color, default_true, has_prefix, is_chat_event, is_reserved_event,
    is_unicode_white_space, keepalive_ping_command, keepalive_pong_command, require_token,
    same_text, split_whitespace, subscribe_command, KickApiError,
};

#[test]
fn channel_name_of_chatroom() {
    assert_eq!(chatroom_channel(27670567), "chatrooms.27670567.v2");
    assert_eq!(chatroom_channel(0), "chatrooms.0.v2");
    assert_eq!(chatroom_channel(u64::MAX), "chatrooms.18446744073709551615.v2");
}

#[test]
fn subscribe_command_text() {
    assert_eq!(
        subscribe_command("chatrooms.5.v2"),
        r#"{"data":{"auth":"","channel":"chatrooms.5.v2"},"event":"pusher:subscribe"}"#
    );
}

#[test]
fn keepalive_command_texts() {
    assert_eq!(keepalive_ping_command(), r#"{"data":{},"event":"pusher:ping"}"#);
    assert_eq!(keepalive_pong_command(), r#"{"data":{},"event":"pusher:pong"}"#);
}

#[test]
fn reserved_namespaces() {
    assert!(is_reserved_event("pusher:ping"));
    assert!(is_reserved_event("pusher:"));
    assert!(is_reserved_event("pusher_internal:member_added"));
    assert!(!is_reserved_event("pusher"));
    assert!(!is_reserved_event("App\\Events\\ChatMessageEvent"));
    assert!(!is_reserved_event("xpusher:ping"));
}

#[test]
fn chat_event_name_is_exact() {
    assert!(is_chat_event("App\\Events\\ChatMessageEvent"));
    assert!(!is_chat_event("App\\Events\\ChatMessageEvent2"));
    assert!(!is_chat_event("App\\Events\\MessageDeletedEvent"));
}

#[test]
fn text_helpers() {
    assert!(has_prefix("héllo", "hé"));
    assert!(has_prefix("abc", ""));
    assert!(!has_prefix("ab", "abc"));
    assert!(same_text("ü", "ü"));
    assert!(!same_text("a", "ab"));
    assert!(is_unicode_white_space('\u{85}'));
    assert!(!is_unicode_white_space('\u{200B}'));
    assert_eq!(split_whitespace(" x  yz "), vec!["x", "yz"]);
}

#[test]
fn reward_defaults() {
    assert!(default_true());
    assert_eq!(default_color(), "#00e701");
}

#[test]
fn token_is_required() {
    assert_eq!(require_token(&Some("t".to_string())), Ok(()));
    let err = require_token(&None).unwrap_err();
    assert_eq!(
        err,
        KickApiError::ApiError("OAuth token required for this endpoint".to_string())
    );
    assert_eq!(err.message(), "API returned an error: OAuth token required for this endpoint");
}
