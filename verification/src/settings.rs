//! The settings that the host is started with.

use vstd::prelude::*;

verus! {

/// How the bot signs in to the chat, and where it listens.
#[derive(Debug)]
pub struct TwitchSettings {
    pub username: String,
    pub client_id: String,
    pub client_secret: String,
    pub redirect_uri: String,
    pub join_channels: Vec<String>,
}

/// All settings.
#[derive(Debug)]
pub struct Settings {
    pub debug: bool,
    pub twitch: TwitchSettings,
}

} // verus!
