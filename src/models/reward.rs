use vstd::prelude::*;

verus! {

/// A channel points reward.
#[derive(Debug, Clone, PartialEq, Eq)]
pub struct ChannelReward {
    /// Reward id.
    pub id: String,
    /// Title.
    pub title: String,
    /// Description.
    pub description: String,
    /// Cost in channel points.
    pub cost: u32,
    /// Whether the reward is enabled (true where the API leaves it out).
    pub is_enabled: bool,
    /// Whether the reward is paused.
    pub is_paused: bool,
    /// Whether a redeemer must type something.
    pub is_user_input_required: bool,
    /// Whether redemptions bypass the request queue.
    pub should_redemptions_skip_request_queue: bool,
    /// Background color as a hex code (`#00e701` where the API leaves it out).
    pub background_color: String,
}

/// A request to create a reward.
#[derive(Debug, Clone, PartialEq, Eq)]
pub struct CreateRewardRequest {
    /// Title.
    pub title: String,
    /// Cost in channel points.
    pub cost: u32,
    /// Description.
    pub description: Option<String>,
    /// Whether the reward is enabled.
    pub is_enabled: Option<bool>,
    /// Whether the reward is paused.
    pub is_paused: Option<bool>,
    /// Whether a redeemer must type something.
    pub is_user_input_required: Option<bool>,
    /// Whether redemptions bypass the request queue.
    pub should_redemptions_skip_request_queue: Option<bool>,
    /// Background color as a hex code.
    pub background_color: Option<String>,
}

/// A request to change a reward; fields left out stay as they are.
#[derive(Debug, Clone, PartialEq, Eq, Default)]
pub struct UpdateRewardRequest {
    /// Title.
    pub title: Option<String>,
    /// Description.
    pub description: Option<String>,
    /// Cost in channel points.
    pub cost: Option<u32>,
    /// Whether the reward is enabled.
    pub is_enabled: Option<bool>,
    /// Whether the reward is paused.
    pub is_paused: Option<bool>,
    /// Whether a redeemer must type something.
    pub is_user_input_required: Option<bool>,
    /// Whether redemptions bypass the request queue.
    pub should_redemptions_skip_request_queue: Option<bool>,
    /// Background color as a hex code.
    pub background_color: Option<String>,
}

/// A redemption of a reward.
#[derive(Debug, Clone, PartialEq, Eq)]
pub struct ChannelRewardRedemption {
    /// Redemption id.
    pub id: String,
    /// When it was redeemed.
    pub redeemed_at: String,
    /// Who redeemed it.
    pub redeemer: RedemptionUser,
    /// Where it stands.
    pub status: RedemptionStatus,
    /// What the redeemer typed, where the reward asks for it.
    pub user_input: Option<String>,
}

/// The user behind a redemption.
#[derive(Debug, Clone, PartialEq, Eq)]
pub struct RedemptionUser {
    /// User id.
    pub user_id: u64,
}

/// Where a redemption stands.
#[derive(Debug, Clone, Copy, PartialEq, Eq, Hash)]
pub enum RedemptionStatus {
    Pending,
    Accepted,
    Rejected,
}

/// A redemption that could not be accepted or rejected.
#[derive(Debug, Clone, PartialEq, Eq)]
pub struct FailedRedemption {
    /// Redemption id.
    pub id: String,
    /// Why it failed.
    pub reason: FailureReason,
}

/// Why a redemption could not be managed.
#[derive(Debug, Clone, Copy, PartialEq, Eq, Hash)]
pub enum FailureReason {
    Unknown,
    NotPending,
    NotFound,
    NotOwned,
}

/// A request to accept or reject redemptions.
#[derive(Debug, Clone, PartialEq, Eq)]
pub struct ManageRedemptionsRequest {
    /// Redemption ids.
    pub ids: Vec<String>,
}

/// The outcome of accepting or rejecting redemptions.
#[derive(Debug, Clone, PartialEq, Eq)]
pub struct ManageRedemptionsResponse {
    /// Redemptions that were handled.
    pub data: Vec<ChannelRewardRedemption>,
    /// Redemptions that were not.
    pub failed: Vec<FailedRedemption>,
}

/// Value of `is_enabled` where the API leaves it out.
pub fn default_true() -> (r: bool)
    ensures
        r,
{
    true
}

/// Value of `background_color` where the API leaves it out.
pub fn default_color() -> (r: String)
    ensures
        r@ == "#00e701"@,
{
    String::from_str("#00e701")
}

} // verus!
