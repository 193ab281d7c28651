//! Payload construction: each callback's arguments land in exactly one case,
//! fields intact, and each case carries its own dispatch tag.

use bevy_discord::messages::rich_presence::{
    MessageCollectionRichPresence, RichPresenceMessageKind,
};
use discord_sdk::overlay::Visibility;

#[test]
fn activity_join_carries_its_secret() {
    let m = MessageCollectionRichPresence::activity_join("sesame".to_string());
    match m {
        MessageCollectionRichPresence::ActivityJoinMessage(inner) => {
            assert_eq!(inner.secret, "sesame");
        }
        _ => panic!("activity_join must produce the activity-join case"),
    }
}

#[test]
fn activity_spectate_carries_its_secret() {
    let m = MessageCollectionRichPresence::activity_spectate("lens".to_string());
    match m {
        MessageCollectionRichPresence::ActivitySpectateMessage(inner) => {
            assert_eq!(inner.secret, "lens");
        }
        _ => panic!("activity_spectate must produce the activity-spectate case"),
    }
}

#[test]
fn overlay_update_carries_both_flags() {
    let m = MessageCollectionRichPresence::overlay_update(true, Visibility::Hidden);
    match m {
        MessageCollectionRichPresence::OverlayUpdateMessage(inner) => {
            assert!(inner.enabled);
            assert!(matches!(inner.visible, Visibility::Hidden));
        }
        _ => panic!("overlay_update must produce the overlay-update case"),
    }
}

#[test]
fn ready_carries_version_and_user() {
    let user = discord_sdk::user::User {
        id: discord_sdk::Snowflake(42),
        username: "ada".to_string(),
        discriminator: Some(7),
        avatar: None,
        is_bot: false,
    };
    let m = MessageCollectionRichPresence::ready(1, user);
    assert_eq!(m.kind(), RichPresenceMessageKind::Ready);
    match m {
        MessageCollectionRichPresence::RpReadyMessage(inner) => {
            assert_eq!(inner.version, 1);
            assert_eq!(inner.user.id.0, 42);
            assert_eq!(inner.user.username, "ada");
            assert_eq!(inner.user.discriminator, Some(7));
            assert!(!inner.user.is_bot);
        }
        _ => panic!("ready must produce the ready case"),
    }
}

#[test]
fn disconnected_carries_its_reason() {
    let m = MessageCollectionRichPresence::disconnected(discord_sdk::Error::NoConnection);
    assert_eq!(m.kind(), RichPresenceMessageKind::Disconnected);
    match m {
        MessageCollectionRichPresence::DisconnectedMessage(inner) => {
            assert!(matches!(inner.reason, discord_sdk::Error::NoConnection));
        }
        _ => panic!("disconnected must produce the disconnected case"),
    }
}

fn sample_user(name: &str) -> discord_sdk::user::User {
    discord_sdk::user::User {
        id: discord_sdk::Snowflake(99),
        username: name.to_string(),
        discriminator: None,
        avatar: None,
        is_bot: false,
    }
}

#[test]
fn current_user_update_carries_its_user() {
    let m = MessageCollectionRichPresence::current_user_update(sample_user("grace"));
    assert_eq!(m.kind(), RichPresenceMessageKind::CurrentUserUpdate);
    match m {
        MessageCollectionRichPresence::CurrentUserUpdateMessage(inner) => {
            assert_eq!(inner.user.username, "grace");
        }
        _ => panic!("current_user_update must produce the current-user-update case"),
    }
}

#[test]
fn activity_join_request_carries_its_user() {
    let m = MessageCollectionRichPresence::activity_join_request(sample_user("edsger"));
    assert_eq!(m.kind(), RichPresenceMessageKind::ActivityJoinRequest);
    match m {
        MessageCollectionRichPresence::ActivityJoinRequestMessage(inner) => {
            assert_eq!(inner.user.username, "edsger");
        }
        _ => panic!("activity_join_request must produce the activity-join-request case"),
    }
}

#[test]
fn unhandled_events_land_in_the_error_case() {
    let event = discord_sdk::Event::Disconnected {
        reason: discord_sdk::Error::CorruptConnection,
    };
    let m = MessageCollectionRichPresence::error(event);
    assert_eq!(m.kind(), RichPresenceMessageKind::Error);
    match m {
        MessageCollectionRichPresence::ErrorMessage(inner) => {
            assert!(matches!(
                inner.0,
                discord_sdk::Event::Disconnected {
                    reason: discord_sdk::Error::CorruptConnection
                }
            ));
        }
        _ => panic!("error must produce the error case"),
    }
}

#[test]
fn distinct_cases_carry_distinct_tags() {
    let kinds = [
        MessageCollectionRichPresence::activity_join("a".to_string()).kind(),
        MessageCollectionRichPresence::activity_spectate("b".to_string()).kind(),
        MessageCollectionRichPresence::overlay_update(false, Visibility::Visible).kind(),
    ];
    assert_eq!(kinds[0], RichPresenceMessageKind::ActivityJoin);
    assert_eq!(kinds[1], RichPresenceMessageKind::ActivitySpectate);
    assert_eq!(kinds[2], RichPresenceMessageKind::OverlayUpdate);
    for i in 0..kinds.len() {
        for j in 0..kinds.len() {
            if i != j {
                assert_ne!(kinds[i], kinds[j]);
            }
        }
    }
}

#[test]
fn http_resource_hands_out_the_same_client() {
    let plugin = bevy_discord::DiscordHttpPlugin::new("aaa.bbbbbb.ccc".to_string());
    assert_eq!(plugin.token, "aaa.bbbbbb.ccc");
    let resource = plugin.build_resource();
    let shared = resource.client();
    assert!(std::sync::Arc::ptr_eq(&shared, &resource.http));
    let _borrowed: &serenity::all::Http = resource.client_ref();
}
