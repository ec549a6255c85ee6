//! The users of the service, as far as sessions need to know them.

use vstd::prelude::*;

verus! {

/// What the provider gave a user to act in their name.
#[derive(Debug, Clone, PartialEq, Eq)]
pub struct SpotifyCreds {
    pub access_token: String,
    pub refresh_token: Option<String>,
}

impl SpotifyCreds {
    /// Credentials made of the two tokens.
    pub fn new(access_token: String, refresh_token: Option<String>) -> (creds: Self)
        ensures
            creds.access_token == access_token,
            creds.refresh_token == refresh_token,
    {
        SpotifyCreds { access_token, refresh_token }
    }
}

/// A user of the service.
#[derive(Debug, Clone, PartialEq, Eq)]
pub struct User {
    pub id: i32,
    /// The provider's name for the user.
    pub spotify_id: String,
    /// The user's credentials with the provider, once they have logged in
    /// there.
    pub token: Option<SpotifyCreds>,
}

} // verus!
