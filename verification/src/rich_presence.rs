//! Discord Rich Presence integration: the plugin that carries the presence
//! configuration into the host application. The host's plugin wiring opens
//! the relay channel, registers one typed message per payload case, and
//! connects the presence SDK client with this configuration.

use vstd::prelude::*;

verus! {

use crate::config::DiscordRichPresenceConfig;

/// A plugin for integrating Discord Rich Presence with the host application.
pub struct DiscordRichPresencePlugin {
    /// Presence configuration: application id and subscriptions.
    pub config: DiscordRichPresenceConfig,
}

impl DiscordRichPresencePlugin {
    /// Creates a new instance of the plugin with the given configuration.
    pub fn new(discord_rich_presence_config: DiscordRichPresenceConfig) -> (p: Self)
        ensures
            p.config == discord_rich_presence_config,
    {
        DiscordRichPresencePlugin { config: discord_rich_presence_config }
    }
}

} // verus!
