//! Typed client pieces for Kick: the data model of its public API and the
//! state machine of the live chat feed, which is carried over Pusher.

mod api;
mod error;
mod laws;
mod models;
mod protocol;
mod session;
mod text;

pub use api::require_token;
pub use error::KickApiError;
pub use models::{
    default_color, default_true, BanRequest, Category, Channel, ChannelReward,
    ChannelRewardRedemption, ChatBadge, ChatIdentity, ChatMessageMetadata, ChatSender,
    CreateRewardRequest, EventSubscription, FailedRedemption, FailureReason, LiveChatMessage,
    ManageRedemptionsRequest, ManageRedemptionsResponse, OAuthTokenResponse, OriginalMessage, OriginalSender,
    PusherEvent, PusherMessage, RedemptionStatus, RedemptionUser, SendMessageRequest,
    SendMessageResponse, Stream, SubscribeEvent, SubscribeRequest, SubscribeResult,
    TokenIntrospection, UnbanRequest, UpdateRewardRequest, User,
};
pub use protocol::{
    channel_name, chat_event_name, chatroom_channel, decimal, digit_char, established_name,
    is_chat_event, is_reserved_event, is_reserved_name, keepalive_ping_command,
    keepalive_ping_name, keepalive_pong_command, lemma_subscribe_is_not_pong, ping_frame,
    pong_frame, subscribe_command, subscribe_frame, subscribed_name, CHAT_MESSAGE_EVENT,
    CONNECTION_ESTABLISHED, INTERNAL_PREFIX, KEEPALIVE_PING, PUSHER_PREFIX,
    SUBSCRIPTION_SUCCEEDED,
};
pub use laws::{
    chat_filter_is_exact, chat_filter_is_idempotent, chat_frames, chat_messages,
    closed_session_ends, end_is_final, handshake_precedes_events, is_chat_frame,
    messages_come_from_chat_events, only_pings_are_answered, ping_is_answered, pings_are_invisible,
    ready_messages_are_chat_payloads, reserved_event_is_consumed, reserved_events_stay_inside,
    visible, without_pings,
};
pub use session::{
    event_of, handshake, is_closing, is_keepalive_ping, is_named, is_ping, is_pong,
    message_transition, phase_after, pong_for, pump, run, step, transition, Action, ChatSession,
    Effect, Frame, Phase, SessionError,
};
pub use text::{
    has_prefix, is_prefix, is_unicode_white_space, is_white_space, same_text, split_whitespace,
    words, words_from,
};
