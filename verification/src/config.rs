//! Configuration supplied once at startup: plain field-holders, cloned into
//! the setup routines and immutable thereafter from the relay's perspective.

use vstd::prelude::*;

verus! {

use serenity::all::GatewayIntents;
use serenity::all::OnlineStatus;
use serenity::all::ActivityData;
use discord_sdk::Subscriptions;
use vstd::utf8::encode_utf8;

/// Configuration settings for the Discord bot: its credential token, gateway
/// intents, initial online status and activity, and how many shards to run.
#[derive(Clone)]
pub struct DiscordBotConfig {
    pub token: String,
    pub gateway_intents: GatewayIntents,
    pub status: Option<OnlineStatus>,
    pub activity: Option<ActivityData>,
    pub shards: u32,
}

/// Relies on GatewayIntents::default: the non-privileged intent set.
#[verifier::external_body]
fn default_gateway_intents() -> (r: GatewayIntents) {
    GatewayIntents::default()
}

impl Default for DiscordBotConfig {
    /// An empty token, default intents, no status, no activity, automatic
    /// sharding.
    fn default() -> (r: Self)
        ensures
            r.token@ == Seq::<char>::empty(),
            r.status is None,
            r.activity is None,
            r.shards == 0,
    {
        DiscordBotConfig {
            token: String::new(),
            gateway_intents: default_gateway_intents(),
            status: None,
            activity: None,
            shards: 0,
        }
    }
}

impl DiscordBotConfig {
    /// Sets the bot token.
    pub fn token(self, token: String) -> (r: Self)
        ensures
            r == (DiscordBotConfig { token, ..self }),
    {
        DiscordBotConfig { token, ..self }
    }

    /// Sets the bot gateway intents.
    pub fn gateway_intents(self, gateway_intents: GatewayIntents) -> (r: Self)
        ensures
            r == (DiscordBotConfig { gateway_intents, ..self }),
    {
        DiscordBotConfig { gateway_intents, ..self }
    }

    /// Sets the initial status.
    pub fn status(self, status: OnlineStatus) -> (r: Self)
        ensures
            r == (DiscordBotConfig { status: Some(status), ..self }),
    {
        DiscordBotConfig { status: Some(status), ..self }
    }

    /// Sets the initial activity.
    pub fn activity(self, activity: ActivityData) -> (r: Self)
        ensures
            r == (DiscordBotConfig { activity: Some(activity), ..self }),
    {
        DiscordBotConfig { activity: Some(activity), ..self }
    }

    /// Sets the total number of shards to use.
    pub fn shards(self, shards: u32) -> (r: Self)
        ensures
            r == (DiscordBotConfig { shards, ..self }),
    {
        DiscordBotConfig { shards, ..self }
    }

    /// Whether the credential token is syntactically plausible. Building the
    /// client from a configuration that fails this check is a programmer
    /// error: the setup routine panics rather than silently starting in a
    /// broken state.
    pub fn validate(&self) -> (r: bool)
        ensures
            r == spec_valid_token(encode_utf8(self.token@)),
    {
        validate_token(self.token.as_str())
    }

    /// The decision the setup routine acts on when it launches the client:
    /// a single process-managed connection when the configured shard count is
    /// zero, that many explicit shards otherwise.
    pub fn start_mode(&self) -> (m: StartMode)
        ensures
            self.shards == 0 ==> m == StartMode::Automatic,
            self.shards != 0 ==> m == (StartMode::Sharded(self.shards)),
    {
        if self.shards == 0 {
            StartMode::Automatic
        } else {
            StartMode::Sharded(self.shards)
        }
    }
}

/// How the gateway client is started.
#[derive(Clone, Copy, Debug, PartialEq, Eq, Structural)]
pub enum StartMode {
    /// One process-managed connection.
    Automatic,
    /// An explicit number of shards.
    Sharded(u32),
}

/// Configuration settings for Discord Rich Presence integration: the Discord
/// application id and which event groups to subscribe to.
#[derive(Clone)]
pub struct DiscordRichPresenceConfig {
    pub app: discord_sdk::AppId,
    pub subscriptions: Subscriptions,
}

/// Relies on Subscriptions::all: every subscription group enabled.
#[verifier::external_body]
fn all_subscriptions() -> (r: Subscriptions) {
    Subscriptions::all()
}

impl Default for DiscordRichPresenceConfig {
    /// A placeholder application id and every subscription enabled.
    fn default() -> (r: Self)
        ensures
            r.app == 0,
    {
        DiscordRichPresenceConfig { app: 0, subscriptions: all_subscriptions() }
    }
}

impl DiscordRichPresenceConfig {
    /// Sets the Discord application id.
    pub fn app(self, app: discord_sdk::AppId) -> (r: Self)
        ensures
            r == (DiscordRichPresenceConfig { app, ..self }),
    {
        DiscordRichPresenceConfig { app, ..self }
    }

    /// Sets the subscriptions for Rich Presence.
    pub fn subscriptions(self, subscriptions: Subscriptions) -> (r: Self)
        ensures
            r == (DiscordRichPresenceConfig { subscriptions, ..self }),
    {
        DiscordRichPresenceConfig { subscriptions, ..self }
    }
}

/// The marker that may precede a token handed to the Discord API, as bytes:
/// `Bot` and a space.
pub open spec fn bot_marker() -> Seq<u8> {
    seq![66u8, 111u8, 116u8, 32u8]
}

/// The credential with every leading `Bot ` marker removed, as the Discord
/// API accepts tokens written that way.
pub open spec fn spec_strip_bot(s: Seq<u8>) -> Seq<u8>
    decreases s.len(),
{
    if s.len() >= 4 && s.subrange(0, 4) == bot_marker() {
        spec_strip_bot(s.subrange(4, s.len() as int))
    } else {
        s
    }
}

/// Dots stand at positions `i` and `j` and nowhere else, neither at an end
/// and not adjacent: the token splits into exactly three non-empty parts.
pub open spec fn dots_exactly_at(t: Seq<u8>, i: int, j: int) -> bool {
    &&& 0 < i
    &&& i + 1 < j
    &&& j + 1 < t.len()
    &&& forall|k: int| 0 <= k < t.len() ==> ((t[k] == 46u8) <==> (k == i || k == j))
}

/// A syntactically plausible credential: once any leading `Bot ` markers are
/// removed, it consists of exactly three non-empty dot-separated parts.
pub open spec fn spec_valid_token(s: Seq<u8>) -> bool {
    exists|i: int, j: int| dots_exactly_at(spec_strip_bot(s), i, j)
}

/// Checks a credential for syntactic plausibility.
pub fn validate_token(token: &str) -> (r: bool)
    ensures
        r == spec_valid_token(encode_utf8(token@)),
{
    let bytes: &[u8] = token.as_bytes();
    let len: usize = bytes.len();

    proof {
        assert(bytes@.subrange(0, len as int) =~= bytes@);
    }
    let mut start: usize = 0;
    while len - start >= 4 && bytes[start] == 66u8 && bytes[start + 1] == 111u8 && bytes[start + 2]
        == 116u8 && bytes[start + 3] == 32u8
        invariant
            start <= len,
            bytes@.len() == len,
            spec_strip_bot(bytes@) == spec_strip_bot(bytes@.subrange(start as int, len as int)),
        decreases len - start,
    {
        let ghost before = bytes@.subrange(start as int, len as int);
        start = start + 4;
        proof {
            let after = bytes@.subrange(start as int, len as int);
            assert(before.subrange(0, 4) =~= bot_marker());
            assert(before.subrange(4, before.len() as int) =~= after);
        }
    }
    let ghost t = bytes@.subrange(start as int, len as int);
    proof {
        assert(t.len() >= 4 ==> !(t.subrange(0, 4) == bot_marker())) by {
            if t.len() >= 4 && t.subrange(0, 4) == bot_marker() {
                assert(t[0] == 66u8 && t[1] == 111u8 && t[2] == 116u8 && t[3] == 32u8);
            }
        }
    }

    let mut pos: usize = start;
    let mut count: usize = 0;
    let mut first: usize = 0;
    let mut second: usize = 0;
    while pos < len
        invariant
            start <= pos <= len,
            bytes@.len() == len,
            t == bytes@.subrange(start as int, len as int),
            count == 0 ==> (forall|k: int| 0 <= k < pos - start ==> t[k] != 46u8),
            count == 1 ==> start <= start + first < pos && (forall|k: int|
                0 <= k < pos - start ==> ((t[k] == 46u8) <==> k == first)),
            count == 2 ==> first < second && start + second < pos && (forall|k: int|
                0 <= k < pos - start ==> ((t[k] == 46u8) <==> (k == first || k == second))),
            count >= 3 ==> first < second && start + second < pos && t[first as int] == 46u8
                && t[second as int] == 46u8 && (exists|k: int|
                second < k < pos - start && t[k] == 46u8),
        decreases len - pos,
    {
        if bytes[pos] == 46u8 {
            let ghost previous = count;
            if count == 0 {
                first = pos - start;
            } else if count == 1 {
                second = pos - start;
            }
            if count < 3 {
                count = count + 1;
            }
            proof {
                if count >= 3 && previous == 2 {
                    assert(second < pos - start && t[pos - start] == 46u8);
                }
                if count >= 3 && previous >= 3 {
                    let k = choose|k: int| second < k < pos - start && t[k] == 46u8;
                    assert(second < k < (pos + 1) - start && t[k] == 46u8);
                }
            }
        } else {
            proof {
                if count >= 3 {
                    let k = choose|k: int| second < k < pos - start && t[k] == 46u8;
                    assert(second < k < (pos + 1) - start && t[k] == 46u8);
                }
            }
        }
        pos = pos + 1;
    }

    let valid = count == 2 && first > 0 && second > first + 1 && start + second + 1 < len;
    proof {
        let n = t.len() as int;
        if valid {
            assert(dots_exactly_at(t, first as int, second as int));
        } else {
            assert forall|i: int, j: int| !dots_exactly_at(t, i, j) by {
                if dots_exactly_at(t, i, j) {
                    assert(t[i] == 46u8);
                    assert(t[j] == 46u8);
                    if count == 0 {
                    } else if count == 1 {
                        assert(i == first && j == first);
                    } else if count == 2 {
                        assert(i == first && j == second);
                    } else {
                        let k = choose|k: int| second < k < n && t[k] == 46u8;
                        assert(k == i || k == j);
                        assert(first as int == i || first as int == j);
                        assert(second as int == i || second as int == j);
                    }
                }
            }
        }
        assert(t == spec_strip_bot(bytes@)) by {
            assert(spec_strip_bot(t) == t);
        }
        assert(bytes@ == encode_utf8(token@));
    }
    valid
}

} // verus!
