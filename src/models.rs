//! The data that the API and the chat feed exchange.
mod channel;
mod chat;
mod event;
mod live_chat;
mod moderation;
mod oauth;
mod reward;
mod user;

pub use channel::{Category, Channel, Stream};
pub use chat::{SendMessageRequest, SendMessageResponse};
pub use event::{EventSubscription, SubscribeEvent, SubscribeRequest, SubscribeResult};
pub use live_chat::{
    ChatBadge, ChatIdentity, ChatMessageMetadata, ChatSender, LiveChatMessage, OriginalMessage,
    OriginalSender, PusherEvent, PusherMessage,
};
pub use moderation::{BanRequest, UnbanRequest};
pub use oauth::OAuthTokenResponse;
pub use reward::{
    default_color, default_true, ChannelReward, ChannelRewardRedemption, CreateRewardRequest,
    FailedRedemption, FailureReason, ManageRedemptionsRequest, ManageRedemptionsResponse,
    RedemptionStatus, RedemptionUser, UpdateRewardRequest,
};
pub use user::{TokenIntrospection, User};
