//! Basic information about a planned post's destination.

use vstd::prelude::*;

verus! {

/// Contains basic information about a planned post's destination.
#[derive(Clone, Debug)]
pub struct Settings {
    /// The domain of the destination instance, i.e. `"lemmy.world"`.
    pub instance: String,
    /// The community on that instance to which to post.
    pub community: String,
    /// The login of the account that will make the post.
    pub username_or_email: String,
    /// The password of the account.
    pub password: String,
    /// If absent or `false`, the input is validated but no server
    /// communication is attempted.
    pub enabled: Option<bool>,
}

impl Settings {
    /// Whether the run may actually talk to the server.
    pub open spec fn is_enabled(&self) -> bool {
        self.enabled == Some(true)
    }

    /// Whether the run may actually talk to the server: an absent flag means
    /// disabled.
    pub fn enabled_flag(&self) -> (r: bool)
        ensures
            r == self.is_enabled(),
    {
        match self.enabled {
            Some(b) => b,
            None => false,
        }
    }
}

} // verus!
