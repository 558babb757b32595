use std::collections::VecDeque;

use kick_api::{
    Action, ChatIdentity, ChatSender, ChatSession, Frame, LiveChatMessage, Phase, PusherEvent,
    PusherMessage, SessionError,
};

fn envelope(event: &str, data: &str) -> PusherMessage {
    PusherMessage {
        event: event.to_string(),
        data: data.to_string(),
        channel: Some("chatrooms.27670567.v2".to_string()),
    }
}

fn text(event: &str) -> Frame {
    Frame::Text { envelope: Some(envelope(event, "{}")), chat: None }
}

fn chat_message(id: &str, content: &str) -> LiveChatMessage {
    LiveChatMessage {
        id: id.to_string(),
        chatroom_id: Some(27670567),
        content: content.to_string(),
        message_type: "message".to_string(),
        created_at: None,
        sender: ChatSender {
            id: 5,
            username: "bob".to_string(),
            slug: Some("bob".to_string()),
            identity: ChatIdentity { color: "#FF0000".to_string(), badges: vec![] },
        },
        metadata: None,
    }
}

fn chat_frame(data: &str, decoded: Option<LiveChatMessage>) -> Frame {
    Frame::Text {
        envelope: Some(envelope("App\\Events\\ChatMessageEvent", data)),
        chat: decoded,
    }
}

/// Runs the handshake as a transport would; returns what was sent.
fn connect(session: &mut ChatSession, frames: &mut VecDeque<Frame>) -> Result<Vec<Action>, SessionError> {
    let mut sent = Vec::new();
    loop {
        let frame = frames.pop_front().unwrap_or(Frame::End);
        match session.on_frame(frame) {
            Action::Subscribed => return Ok(sent),
            Action::Fail(e) => return Err(e),
            Action::Receive => {}
            a => sent.push(a),
        }
    }
}

fn next_event(
    session: &mut ChatSession,
    frames: &mut VecDeque<Frame>,
    sent: &mut Vec<Action>,
) -> Result<Option<PusherEvent>, SessionError> {
    loop {
        let frame = frames.pop_front().unwrap_or(Frame::End);
        match session.on_frame(frame) {
            Action::Deliver(e) => return Ok(Some(e)),
            Action::EndOfStream => return Ok(None),
            Action::Fail(e) => return Err(e),
            Action::Receive => {}
            a => sent.push(a),
        }
    }
}

fn next_message(
    session: &mut ChatSession,
    frames: &mut VecDeque<Frame>,
    sent: &mut Vec<Action>,
) -> Result<Option<LiveChatMessage>, SessionError> {
    loop {
        let frame = frames.pop_front().unwrap_or(Frame::End);
        match session.on_frame_for_message(frame) {
            Action::DeliverMessage(m) => return Ok(Some(m)),
            Action::EndOfStream => return Ok(None),
            Action::Fail(e) => return Err(e),
            Action::Receive => {}
            a => sent.push(a),
        }
    }
}

fn ready_session() -> ChatSession {
    let mut s = ChatSession::new(27670567);
    let mut hs: VecDeque<Frame> =
        vec![text("pusher:connection_established"), text("pusher_internal:subscription_succeeded")]
            .into();
    connect(&mut s, &mut hs).unwrap();
    s
}

#[test]
fn round_trip_of_a_chat_message() {
    let mut s = ChatSession::new(27670567);
    assert_eq!(s.channel(), "chatrooms.27670567.v2");
    let mut frames: VecDeque<Frame> = vec![
        text("pusher:connection_established"),
        text("pusher_internal:subscription_succeeded"),
        Frame::Ping(vec![1, 2, 3]),
        chat_frame(r#"{"id":"1","content":"hi"}"#, Some(chat_message("1", "hi"))),
        text("pusher_internal:member_added"),
        Frame::Close,
    ]
    .into();
    let sent = connect(&mut s, &mut frames).unwrap();
    assert_eq!(
        sent,
        vec![Action::SendText(
            r#"{"data":{"auth":"","channel":"chatrooms.27670567.v2"},"event":"pusher:subscribe"}"#
                .to_string()
        )]
    );
    assert_eq!(s.phase(), Phase::Ready);
    let mut sent = Vec::new();
    let m = next_message(&mut s, &mut frames, &mut sent).unwrap().unwrap();
    assert_eq!(m.content, "hi");
    assert_eq!(m.id, "1");
    assert_eq!(m.sender.username, "bob");
    assert_eq!(sent, vec![Action::SendPong(vec![1, 2, 3])]);
    assert_eq!(next_message(&mut s, &mut frames, &mut sent).unwrap(), None);
    assert_eq!(sent.len(), 1);
}

#[test]
fn malformed_chat_payload_is_skipped() {
    let mut s = ready_session();
    let mut frames: VecDeque<Frame> = vec![
        chat_frame("not json", None),
        chat_frame(r#"{"id":"2"}"#, Some(chat_message("2", "second"))),
    ]
    .into();
    let mut sent = Vec::new();
    let m = next_message(&mut s, &mut frames, &mut sent).unwrap().unwrap();
    assert_eq!(m.id, "2");
    assert_eq!(m.content, "second");
    assert!(sent.is_empty());
}

#[test]
fn keepalive_ping_is_answered_and_hidden() {
    let mut s = ready_session();
    let mut frames: VecDeque<Frame> = vec![
        text("pusher:ping"),
        Frame::Ping(vec![9]),
        text("App\\Events\\UserBannedEvent"),
    ]
    .into();
    let mut sent = Vec::new();
    let e = next_event(&mut s, &mut frames, &mut sent).unwrap().unwrap();
    assert_eq!(e.event, "App\\Events\\UserBannedEvent");
    assert_eq!(e.data, "{}");
    assert_eq!(e.channel.as_deref(), Some("chatrooms.27670567.v2"));
    assert_eq!(
        sent,
        vec![
            Action::SendText(r#"{"data":{},"event":"pusher:pong"}"#.to_string()),
            Action::SendPong(vec![9]),
        ]
    );
}

#[test]
fn pings_answered_during_handshake() {
    let mut s = ChatSession::new(7);
    let mut frames: VecDeque<Frame> = vec![
        Frame::Ping(vec![4]),
        text("pusher:connection_established"),
        text("pusher:ping"),
        Frame::Other,
        text("pusher_internal:subscription_succeeded"),
    ]
    .into();
    let sent = connect(&mut s, &mut frames).unwrap();
    assert_eq!(
        sent,
        vec![
            Action::SendPong(vec![4]),
            Action::SendText(
                r#"{"data":{"auth":"","channel":"chatrooms.7.v2"},"event":"pusher:subscribe"}"#
                    .to_string()
            ),
            Action::SendText(r#"{"data":{},"event":"pusher:pong"}"#.to_string()),
        ]
    );
    assert_eq!(s.phase(), Phase::Ready);
}

#[test]
fn events_before_subscription_are_not_delivered() {
    let mut s = ChatSession::new(7);
    assert_eq!(s.on_frame(text("App\\Events\\ChatMessageEvent")), Action::Receive);
    assert_eq!(s.phase(), Phase::Connecting);
    assert_eq!(s.on_frame(text("pusher_internal:subscription_succeeded")), Action::Receive);
    assert_eq!(s.phase(), Phase::Connecting);
    assert!(matches!(s.on_frame(text("pusher:connection_established")), Action::SendText(_)));
    assert_eq!(s.on_frame(text("App\\Events\\ChatMessageEvent")), Action::Receive);
    assert_eq!(s.phase(), Phase::Subscribing);
}

#[test]
fn closing_during_handshake_fails() {
    let mut s = ChatSession::new(1);
    let mut frames: VecDeque<Frame> = vec![Frame::Close].into();
    assert_eq!(connect(&mut s, &mut frames), Err(SessionError::ClosedBeforeEstablished));
    assert!(s.is_closed());

    let mut s = ChatSession::new(1);
    let mut frames: VecDeque<Frame> = vec![text("pusher:connection_established")].into();
    assert_eq!(connect(&mut s, &mut frames), Err(SessionError::ClosedBeforeSubscribed));

    let mut s = ChatSession::new(1);
    let mut frames: VecDeque<Frame> = vec![Frame::Failed].into();
    assert_eq!(connect(&mut s, &mut frames), Err(SessionError::Transport));
}

#[test]
fn reserved_and_malformed_frames_are_dropped() {
    let mut s = ready_session();
    let mut frames: VecDeque<Frame> = vec![
        text("pusher:connection_established"),
        text("pusher:error"),
        text("pusher_internal:member_removed"),
        Frame::Text { envelope: None, chat: None },
        Frame::Other,
        text("App\\Events\\PinnedMessageCreatedEvent"),
    ]
    .into();
    let mut sent = Vec::new();
    let e = next_event(&mut s, &mut frames, &mut sent).unwrap().unwrap();
    assert_eq!(e.event, "App\\Events\\PinnedMessageCreatedEvent");
    assert!(sent.is_empty());
}

#[test]
fn non_chat_events_are_skipped_by_next_message() {
    let mut s = ready_session();
    let decoded = Some(chat_message("3", "x"));
    let mut frames: VecDeque<Frame> = vec![
        Frame::Text {
            envelope: Some(envelope("App\\Events\\MessageDeletedEvent", "{}")),
            chat: decoded.clone(),
        },
        chat_frame("{}", decoded.clone()),
    ]
    .into();
    let mut sent = Vec::new();
    assert_eq!(next_message(&mut s, &mut frames, &mut sent).unwrap(), decoded);
}

#[test]
fn end_of_stream_is_terminal() {
    let mut s = ready_session();
    let mut frames: VecDeque<Frame> = vec![Frame::End, text("App\\Events\\ChatMessageEvent")].into();
    let mut sent = Vec::new();
    assert_eq!(next_event(&mut s, &mut frames, &mut sent).unwrap(), None);
    assert_eq!(next_event(&mut s, &mut frames, &mut sent).unwrap(), None);
    assert_eq!(next_message(&mut s, &mut frames, &mut sent).unwrap(), None);
    assert_eq!(s.on_frame(Frame::Ping(vec![1])), Action::EndOfStream);
    assert!(sent.is_empty());
}

#[test]
fn transport_error_then_end() {
    let mut s = ready_session();
    assert_eq!(s.on_frame(Frame::Failed), Action::Fail(SessionError::Transport));
    assert_eq!(s.on_frame_for_message(chat_frame("{}", Some(chat_message("4", "y")))), Action::EndOfStream);
}

#[test]
fn close_by_caller_ends_session() {
    let mut s = ready_session();
    s.close();
    assert!(s.is_closed());
    assert_eq!(s.on_frame(text("App\\Events\\ChatMessageEvent")), Action::EndOfStream);
    assert_eq!(s.channel(), "chatrooms.27670567.v2");
}
