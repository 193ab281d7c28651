//! Relay between Discord client libraries and a host game engine's message
//! bus.
//!
//! External callbacks are packaged into closed tagged unions ([`messages`]),
//! pushed across an unbounded channel ([`channel`]), and drained once per
//! engine tick - at most one payload per drain invocation - back out as typed
//! messages. The drain discipline and its first-in first-out guarantee are
//! stated and proved in [`relay`]. Configuration lives in [`config`], the
//! shared client handles in [`res`].

pub mod bot;
pub mod channel;
pub mod config;
mod ext;
pub mod http;
pub mod messages;
pub mod relay;
pub mod rich_presence;
pub mod res;

pub use bot::DiscordBotPlugin;
pub use http::DiscordHttpPlugin;
pub use rich_presence::DiscordRichPresencePlugin;

use vstd::prelude::*;

verus! {

/// Marker for the system set that groups all of this crate's systems.
pub struct DiscordSet;

/// Marker for the plugin that installs the per-tick drain systems.
pub struct ChannelListener;

} // verus!
