//! HTTP client plugin: carries the bot token and builds the client handle
//! that the host application installs as a resource.

use vstd::prelude::*;

verus! {

use std::sync::Arc;
use serenity::all::Http;
use crate::res::DiscordHttpResource;

/// A plugin that provides Discord HTTP functionality: it initializes a
/// Discord HTTP client with the provided bot token and makes it available
/// throughout the application as a resource.
pub struct DiscordHttpPlugin {
    /// The bot token used to authenticate the HTTP client.
    pub token: String,
}

/// Relies on Http::new: a client authenticated with the given token.
#[verifier::external_body]
fn new_http_client(token: &str) -> (r: Http) {
    Http::new(token)
}

impl DiscordHttpPlugin {
    /// Creates a new instance of the Discord HTTP plugin from a bot token.
    pub fn new(token: String) -> (p: DiscordHttpPlugin)
        ensures
            p.token == token,
    {
        DiscordHttpPlugin { token }
    }

    /// Builds what the plugin installs: a resource holding an HTTP client
    /// authenticated with the plugin's token, ready to be shared.
    pub fn build_resource(&self) -> (r: DiscordHttpResource) {
        DiscordHttpResource::new(Arc::new(new_http_client(self.token.as_str())))
    }
}

} // verus!
