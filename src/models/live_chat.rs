use vstd::prelude::*;

verus! {

/// The envelope of every frame that the relay sends: an event name, the
/// channel, and the data as a string that holds JSON in turn.
#[derive(Debug, Clone, PartialEq, Eq)]
pub struct PusherMessage {
    /// Event name.
    pub event: String,
    /// Data, itself JSON encoded.
    pub data: String,
    /// Channel, where the event belongs to one.
    pub channel: Option<String>,
}

/// An event of the subscribed channel, as handed to the caller.
#[derive(Debug, Clone, PartialEq, Eq)]
pub struct PusherEvent {
    /// Event name, such as `App\Events\ChatMessageEvent`.
    pub event: String,
    /// Channel of the event, if any.
    pub channel: Option<String>,
    /// Raw JSON data; decode it a second time to read it.
    pub data: String,
}

/// A chat message of the live feed.
#[derive(Debug, Clone, PartialEq, Eq)]
pub struct LiveChatMessage {
    /// Message id.
    pub id: String,
    /// Chatroom of the message, where the payload gives it.
    pub chatroom_id: Option<u64>,
    /// Message text.
    pub content: String,
    /// Message type, such as "message" or "reply".
    pub message_type: String,
    /// When the message was created (ISO 8601).
    pub created_at: Option<String>,
    /// Who sent the message.
    pub sender: ChatSender,
    /// What the message replies to, for a reply.
    pub metadata: Option<ChatMessageMetadata>,
}

/// What a reply refers to.
#[derive(Debug, Clone, PartialEq, Eq)]
pub struct ChatMessageMetadata {
    /// Author of the message replied to.
    pub original_sender: Option<OriginalSender>,
    /// The message replied to.
    pub original_message: Option<OriginalMessage>,
}

/// Author of a message that is replied to.
#[derive(Debug, Clone, PartialEq, Eq)]
pub struct OriginalSender {
    /// Username.
    pub username: String,
}

/// Text of a message that is replied to.
#[derive(Debug, Clone, PartialEq, Eq)]
pub struct OriginalMessage {
    /// Message text.
    pub content: String,
}

/// Author of a chat message.
#[derive(Debug, Clone, PartialEq, Eq)]
pub struct ChatSender {
    /// User id.
    pub id: u64,
    /// Display name.
    pub username: String,
    /// URL-friendly name.
    pub slug: Option<String>,
    /// Color and badges.
    pub identity: ChatIdentity,
}

/// How a sender is shown.
#[derive(Debug, Clone, PartialEq, Eq)]
pub struct ChatIdentity {
    /// Color of the name, as a hex code.
    pub color: String,
    /// Badges shown next to the name.
    pub badges: Vec<ChatBadge>,
}

/// A badge next to a sender's name.
#[derive(Debug, Clone, PartialEq, Eq)]
pub struct ChatBadge {
    /// Badge kind.
    pub badge_type: String,
    /// Badge text.
    pub text: String,
    /// A count, such as months of subscription.
    pub count: Option<u32>,
}

} // verus!
