//! Pieces shared by the endpoints of the REST API.
use vstd::prelude::*;

use crate::error::KickApiError;

verus! {

/// Message of the error for an endpoint called without a token.
pub open spec fn token_required_message() -> Seq<char> {
    "OAuth token required for this endpoint"@
}

/// Fails with an API error where no OAuth token is at hand.
pub fn require_token(token: &Option<String>) -> (r: Result<(), KickApiError>)
    ensures
        r is Ok <==> token is Some,
        r matches Err(e) ==> e matches KickApiError::ApiError(m) && m@ == token_required_message(),
{
    if token.is_none() {
        return Err(KickApiError::ApiError(String::from_str("OAuth token required for this endpoint")));
    }
    Ok(())
}

} // verus!
