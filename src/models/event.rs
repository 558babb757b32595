use vstd::prelude::*;

verus! {

/// A webhook subscription.
#[derive(Debug, Clone, PartialEq, Eq)]
pub struct EventSubscription {
    /// Subscription id.
    pub id: String,
    /// Application id.
    pub app_id: String,
    /// Broadcaster the subscription is for.
    pub broadcaster_user_id: u64,
    /// Event name.
    pub event: String,
    /// Event version.
    pub version: u32,
    /// Delivery method.
    pub method: String,
    /// Creation time.
    pub created_at: String,
    /// Last update time.
    pub updated_at: String,
}

/// An event to subscribe to.
#[derive(Debug, Clone, PartialEq, Eq)]
pub struct SubscribeEvent {
    /// Event name, such as "chat.message.sent".
    pub name: String,
    /// Event version.
    pub version: u32,
}

/// A request to subscribe to events.
#[derive(Debug, Clone, PartialEq, Eq)]
pub struct SubscribeRequest {
    /// Broadcaster, where the token is an app token.
    pub broadcaster_user_id: Option<u64>,
    /// Delivery method, "webhook".
    pub method: String,
    /// Events to subscribe to.
    pub events: Vec<SubscribeEvent>,
}

/// The outcome of one subscription.
#[derive(Debug, Clone, PartialEq, Eq)]
pub struct SubscribeResult {
    /// Event name.
    pub name: String,
    /// Event version.
    pub version: u32,
    /// Subscription id, on success.
    pub subscription_id: Option<String>,
    /// Error text, on failure.
    pub error: Option<String>,
}

} // verus!
