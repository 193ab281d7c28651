//! The closed tagged unions that travel across the relay channel, one case per
//! distinct callback of the wrapped client libraries.

pub mod bot;
pub mod rich_presence;
