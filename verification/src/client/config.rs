//! Configuration of the desktop client.

use vstd::prelude::*;

use crate::text::owned;

verus! {

/// Default WebSocket URL of the relay.
pub const DEFAULT_RELAY_URL: &'static str = "wss://relay.teleportal.fr/ws";

/// Configuration exposed to the user interface.
#[derive(Debug, Clone, PartialEq, Eq)]
pub struct ClientConfig {
    /// WebSocket URL of the relay.
    pub relay_url: String,
}

impl ClientConfig {
    /// The configuration for the value of the `TELEPORTAL_RELAY_URL` setting,
    /// if it is set; the default relay otherwise.
    pub fn from_setting(relay_url: Option<String>) -> (r: Self)
        ensures
            relay_url matches Some(u) ==> r.relay_url@ == u@,
            relay_url is None ==> r.relay_url@ == DEFAULT_RELAY_URL@,
    {
        match relay_url {
            Some(u) => ClientConfig { relay_url: u },
            None => ClientConfig { relay_url: owned(DEFAULT_RELAY_URL) },
        }
    }
}

} // verus!
