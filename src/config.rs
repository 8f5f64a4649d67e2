//! The session configuration: the server's base URL and the user's credentials.

use crate::data_types::session_state_of;
use crate::data_types::Credentials;
use crate::data_types::SessionState;
use vstd::prelude::*;

verus! {

/// What is kept between runs: where the server is and who is logged in.
#[derive(Debug)]
pub struct Config {
    pub base_url: String,
    pub creds: Credentials,
}

impl Clone for Config {
    fn clone(&self) -> (r: Self)
        ensures
            r == *self,
    {
        Config { base_url: self.base_url.clone(), creds: self.creds.clone() }
    }
}

impl Default for Config {
    fn default() -> (r: Self)
        ensures
            r.base_url@ == Seq::<char>::empty(),
            r.creds.username@ == Seq::<char>::empty(),
            r.creds.password@ == Seq::<char>::empty(),
            r.creds.current_token@ == Seq::<char>::empty(),
    {
        Config { base_url: String::new(), creds: Credentials::default() }
    }
}

impl Config {
    /// Authenticated exactly when a session token is held.
    pub fn current_session_state(&self) -> (r: SessionState)
        ensures
            r == session_state_of(self.creds.current_token@),
    {
        if self.creds.current_token.as_str().is_empty() {
            SessionState::Unauthenticated
        } else {
            SessionState::Authenticated
        }
    }
}

} // verus!
