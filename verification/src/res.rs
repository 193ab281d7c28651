//! Resources handed to consumer systems once the corresponding readiness
//! event fires: shared-ownership handles onto the HTTP client and the
//! presence SDK client. They are immutable after construction and freely
//! clonable; the relay never tears them down.

use vstd::prelude::*;

verus! {

use std::sync::Arc;
use serenity::all::Http;
use discord_sdk::Discord;

/// Relies on Arc::clone: the clone is a handle onto the same shared value.
#[verifier::external_body]
fn clone_arc<T>(a: &Arc<T>) -> (r: Arc<T>)
    ensures
        r == *a,
{
    Arc::clone(a)
}

/// Relies on Arc::as_ref: the reference points at the shared value.
#[verifier::external_body]
fn arc_as_ref<T>(a: &Arc<T>) -> (r: &T)
    ensures
        *r == *a,
{
    a.as_ref()
}

/// Access to the Discord HTTP client, shared behind an [`Arc`] for safe
/// concurrent use.
pub struct DiscordHttpResource {
    /// The shared Discord HTTP client handle.
    pub http: Arc<Http>,
}

impl DiscordHttpResource {
    /// Wraps an HTTP client handle as a resource.
    pub fn new(http: Arc<Http>) -> (r: Self)
        ensures
            r.http == http,
    {
        DiscordHttpResource { http }
    }

    /// A cloned handle onto the HTTP client, for sharing ownership across
    /// systems or threads.
    pub fn client(&self) -> (r: Arc<Http>)
        ensures
            r == self.http,
    {
        clone_arc(&self.http)
    }

    /// A borrowed reference to the HTTP client, for temporary access.
    pub fn client_ref(&self) -> (r: &Http)
        ensures
            *r == self.http,
    {
        arc_as_ref(&self.http)
    }
}

/// Access to the presence SDK client for updating rich-presence state.
pub struct DiscordRichPresenceRes {
    /// The shared presence SDK client handle.
    pub discord: Arc<Discord>,
}

impl DiscordRichPresenceRes {
    /// Wraps a presence SDK client handle as a resource.
    pub fn new(rp: Arc<Discord>) -> (r: Self)
        ensures
            r.discord == rp,
    {
        DiscordRichPresenceRes { discord: rp }
    }

    /// A cloned handle onto the presence SDK client, for sharing ownership.
    pub fn get_rp(&self) -> (r: Arc<Discord>)
        ensures
            r == self.discord,
    {
        clone_arc(&self.discord)
    }

    /// A borrowed reference to the presence SDK client, for temporary access.
    pub fn get_rp_ref(&self) -> (r: &Discord)
        ensures
            *r == self.discord,
    {
        arc_as_ref(&self.discord)
    }
}

} // verus!
