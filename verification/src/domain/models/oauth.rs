//! OAuth2 access token response.
use vstd::prelude::*;

verus! {

/// Successful answer of `POST /oauth2/token`.
#[derive(Debug, Clone)]
pub struct OAuth2TokenResponse {
    /// JWT access token, sent as `Authorization: Bearer`.
    pub access_token: String,
    /// Token type, always `Bearer`.
    pub token_type: String,
    /// Seconds until the token expires.
    pub expires_in: i64,
}

} // verus!
