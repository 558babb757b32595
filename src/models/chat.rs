use vstd::prelude::*;

verus! {

/// A chat message to send through the API.
#[derive(Debug, Clone, PartialEq, Eq)]
pub struct SendMessageRequest {
    /// Message type: "user" or "bot".
    pub message_type: String,
    /// Message text.
    pub content: String,
    /// Channel to send to (required for the "user" type).
    pub broadcaster_user_id: Option<u64>,
    /// Message that this one answers.
    pub reply_to_message_id: Option<String>,
}

/// What the API answers to a sent message.
#[derive(Debug, Clone, PartialEq, Eq)]
pub struct SendMessageResponse {
    /// Whether the message was sent.
    pub is_sent: bool,
    /// Id of the new message.
    pub message_id: String,
}

} // verus!
