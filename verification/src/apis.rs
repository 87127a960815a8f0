//! The users this service keeps.

use vstd::prelude::*;

use crate::twitch_auth::{TokenMetadata, UserAccessToken};

verus! {

/// A StreamElements token.
pub type SEToken = String;

/// A user who logged in with Twitch, with their StreamElements token once known.
#[derive(Debug)]
pub struct User {
    pub access_token: UserAccessToken,
    pub token_metadata: TokenMetadata,
    pub se_token: Option<SEToken>,
}

impl User {
    /// A freshly logged-in user, with no StreamElements token yet.
    pub fn from_login(access_token: UserAccessToken, token_metadata: TokenMetadata) -> (user: Self)
        ensures
            user.access_token == access_token,
            user.token_metadata == token_metadata,
            user.se_token is None,
    {
        User { access_token, token_metadata, se_token: None }
    }

    /// Takes the StreamElements token from the stored record of this user,
    /// `stored` (`None` when there is none or it cannot be read). Gives
    /// `Some(())` and sets the token when the record has one; otherwise gives
    /// `None` and leaves the user as it was.
    pub fn with_se_token(&mut self, stored: Option<User>) -> (r: Option<()>)
        ensures
            match stored {
                Some(record) => match record.se_token {
                    Some(token) => {
                        &&& r is Some
                        &&& final(self).se_token == Some(token)
                        &&& final(self).access_token == old(self).access_token
                        &&& final(self).token_metadata == old(self).token_metadata
                    },
                    None => r is None && *final(self) == *old(self),
                },
                None => r is None && *final(self) == *old(self),
            },
    {
        match stored {
            Some(User { se_token: Some(se_token), .. }) => self.se_token = Some(se_token),
            _ => return None,
        };
        Some(())
    }
}

} // verus!
