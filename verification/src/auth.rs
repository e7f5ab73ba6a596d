//! The account data the launcher works with. The sign-in conversation itself
//! is an outside service run by the surrounding program; the core only
//! carries the resulting identity and tokens.
use vstd::prelude::*;

verus! {

/// An authenticated (or local) player identity: the values the Launch
/// Composer substitutes into the game's argument templates.
#[derive(Clone, Debug, Default, PartialEq)]
pub struct MinecraftAccount {
    pub username: String,
    pub token: String,
    pub uuid: String,
}

/// A device code handed to the player to finish signing in elsewhere.
#[derive(Clone, Debug, Default)]
pub struct AuthCode {
    pub code: String,
    pub link: String,
    pub device_code: String,
}

/// The token pair a completed sign-in yields.
#[derive(Debug, Clone, Default)]
pub struct AuthToken {
    pub access_token: String,
    pub refresh_token: String,
}

/// The intermediate gaming-network credentials of the sign-in chain.
#[derive(Clone, Debug, Default)]
pub struct XboxLiveData {
    pub user_hash: String,
    pub xsts_token: String,
}

/// What one step of waiting for the player's sign-in reported.
#[derive(Debug, Clone)]
pub enum WaitProgress {
    GotAuthToken(AuthToken),
    Waiting,
    Error(String),
    Finished,
}

} // verus!
