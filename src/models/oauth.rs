use vstd::prelude::*;

verus! {

/// What the OAuth server answers when it issues or refreshes a token.
#[derive(Debug, Clone, PartialEq, Eq)]
pub struct OAuthTokenResponse {
    /// Access token for API requests.
    pub access_token: String,
    /// Token that gets a new access token later.
    pub refresh_token: Option<String>,
    /// Lifetime of the access token in seconds.
    pub expires_in: u64,
    /// Granted scopes, separated by white space.
    pub scope: String,
    /// Token type, typically "Bearer".
    pub token_type: String,
}

} // verus!
