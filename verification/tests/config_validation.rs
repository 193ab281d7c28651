//! Configuration: builders, defaults, start mode, and the syntactic token
//! check that gates client construction.

use bevy_discord::config::{
    validate_token, DiscordBotConfig, DiscordRichPresenceConfig, StartMode,
};
use serenity::all::{GatewayIntents, OnlineStatus};

#[test]
fn default_bot_config_is_empty() {
    let cfg = DiscordBotConfig::default();
    assert_eq!(cfg.token, "");
    assert!(cfg.status.is_none());
    assert!(cfg.activity.is_none());
    assert_eq!(cfg.shards, 0);
    assert_eq!(cfg.gateway_intents, GatewayIntents::default());
}

#[test]
fn builders_replace_exactly_their_field() {
    let cfg = DiscordBotConfig::default()
        .token("aaa.bbbbbb.ccc".to_string())
        .gateway_intents(GatewayIntents::non_privileged())
        .status(OnlineStatus::Idle)
        .shards(3);
    assert_eq!(cfg.token, "aaa.bbbbbb.ccc");
    assert_eq!(cfg.gateway_intents, GatewayIntents::non_privileged());
    assert_eq!(cfg.status, Some(OnlineStatus::Idle));
    assert!(cfg.activity.is_none());
    assert_eq!(cfg.shards, 3);
}

#[test]
fn default_rich_presence_config_subscribes_to_everything() {
    let cfg = DiscordRichPresenceConfig::default();
    assert_eq!(cfg.app, 0);
    assert_eq!(
        cfg.subscriptions.bits(),
        discord_sdk::Subscriptions::all().bits()
    );
}

#[test]
fn rich_presence_builders_replace_exactly_their_field() {
    let cfg = DiscordRichPresenceConfig::default()
        .app(123456789)
        .subscriptions(discord_sdk::Subscriptions::ACTIVITY);
    assert_eq!(cfg.app, 123456789);
    assert_eq!(
        cfg.subscriptions.bits(),
        discord_sdk::Subscriptions::ACTIVITY.bits()
    );
}

#[test]
fn wellformed_tokens_pass_the_syntactic_check() {
    assert!(validate_token("aaa.bbbbbb.ccc"));
    assert!(validate_token(
        "Mjg4NzYwMjQxMzYzODc3ODg4.C_ikow.j3VupLBuE1QWZng3TMGH0z_UAwg"
    ));
    assert!(validate_token("Bot aaa.bbbbbb.ccc"));
    assert!(validate_token("Bot Bot aaa.bbbbbb.ccc"));
}

#[test]
fn empty_credential_fails_the_syntactic_check() {
    assert!(!validate_token(""));
    assert!(!DiscordBotConfig::default().validate());
}

#[test]
fn malformed_credentials_fail_the_syntactic_check() {
    assert!(!validate_token("no-dots-at-all"));
    assert!(!validate_token("only.one-dot"));
    assert!(!validate_token("too.many.dots.here"));
    assert!(!validate_token("empty..middle"));
    assert!(!validate_token(".starts.with-dot"));
    assert!(!validate_token("ends.with.dot."));
    assert!(!validate_token("Bot "));
    assert!(!validate_token("Bot a.b"));
}

#[test]
fn config_validate_matches_token_check() {
    let good = DiscordBotConfig::default().token("aaa.bbbbbb.ccc".to_string());
    assert!(good.validate());
    let bad = DiscordBotConfig::default().token("broken".to_string());
    assert!(!bad.validate());
}

#[test]
fn zero_shards_start_automatically() {
    let cfg = DiscordBotConfig::default();
    assert_eq!(cfg.start_mode(), StartMode::Automatic);
}

#[test]
fn a_shard_count_starts_that_many_shards() {
    let cfg = DiscordBotConfig::default().shards(4);
    assert_eq!(cfg.start_mode(), StartMode::Sharded(4));
}
