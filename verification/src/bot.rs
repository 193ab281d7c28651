//! Discord bot integration: the plugin that carries the bot configuration
//! into the host application. The host's plugin wiring opens the relay
//! channel, registers one typed message per payload case, and launches the
//! gateway client with this configuration.

use vstd::prelude::*;

verus! {

use crate::config::DiscordBotConfig;

/// A plugin that integrates a Discord bot into the host application: it
/// relays every gateway callback as a typed message and manages the bot's
/// presence settings.
pub struct DiscordBotPlugin {
    /// Bot configuration: token, intents, presence settings and shard count.
    pub config: DiscordBotConfig,
}

impl DiscordBotPlugin {
    /// Creates a new instance of the plugin with the specified configuration.
    pub fn new(configuration: DiscordBotConfig) -> (p: Self)
        ensures
            p.config == configuration,
    {
        DiscordBotPlugin { config: configuration }
    }
}

} // verus!
