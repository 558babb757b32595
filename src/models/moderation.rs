use vstd::prelude::*;

verus! {

/// A request to ban or time out a user.
#[derive(Debug, Clone, PartialEq, Eq)]
pub struct BanRequest {
    /// Channel to ban in.
    pub broadcaster_user_id: u64,
    /// User to ban.
    pub user_id: u64,
    /// Reason for the ban.
    pub reason: Option<String>,
    /// Timeout length in minutes; none for a permanent ban.
    pub duration: Option<u32>,
}

/// A request to lift a ban.
#[derive(Debug, Clone, PartialEq, Eq)]
pub struct UnbanRequest {
    /// Channel to unban in.
    pub broadcaster_user_id: u64,
    /// User to unban.
    pub user_id: u64,
}

} // verus!
