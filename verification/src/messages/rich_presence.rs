//! Rich-presence-side relay payloads: one case per event of the presence SDK.

use vstd::prelude::*;

verus! {

use std::sync::Arc;
use discord_sdk::Event;
use discord_sdk::Error;
use discord_sdk::user::User;
use discord_sdk::activity::ActivityInvite;
use discord_sdk::relations::Relationship;
use discord_sdk::overlay::Visibility;

/// Fires when the SDK reports an event this relay has no dedicated case for;
/// the raw event is carried through unchanged.
pub struct ErrorMessage(pub Event);

/// Sent by Discord upon receipt of our handshake message; the user is the
/// current user logged in to the Discord we connected to.
pub struct RpReadyMessage {
    /// The protocol version; only v1 exists at present.
    pub version: u32,
    /// The user that is logged into the Discord application we connected to.
    pub user: User,
}

/// Fired when the connection between us and Discord has been interrupted.
pub struct DisconnectedMessage {
    pub reason: Error,
}

/// Fired when any details on the current logged in user are changed.
pub struct CurrentUserUpdateMessage {
    /// The user that is logged into the Discord application we connected to.
    pub user: User,
}

/// Sent by Discord when the local user has requested to join a game, and the
/// remote user has accepted their request.
pub struct ActivityJoinMessage {
    pub secret: String,
}

/// Sent by Discord when the local user has chosen to spectate another user's
/// game session.
pub struct ActivitySpectateMessage {
    pub secret: String,
}

/// Fires when a user asks to join the current user's game.
pub struct ActivityJoinRequestMessage {
    /// The user asking to join.
    pub user: User,
}

/// Fires when the current user is invited by another user to their game.
pub struct ActivityInviteMessage(pub Arc<ActivityInvite>);

/// Fired when the overlay state changes.
pub struct OverlayUpdateMessage {
    /// Whether the user has the overlay enabled or disabled.
    pub enabled: bool,
    /// Whether the overlay is visible or not.
    pub visible: Visibility,
}

/// Fired when a relationship with another user changes.
pub struct RelationshipUpdateMessage(pub Arc<Relationship>);

/// Everything the rich-presence half of the relay can carry. Exactly one case
/// is active per queue entry; each case holds exactly the fields of one SDK
/// event.
pub enum MessageCollectionRichPresence {
    ErrorMessage(ErrorMessage),
    RpReadyMessage(RpReadyMessage),
    DisconnectedMessage(DisconnectedMessage),
    CurrentUserUpdateMessage(CurrentUserUpdateMessage),
    ActivityJoinMessage(ActivityJoinMessage),
    ActivitySpectateMessage(ActivitySpectateMessage),
    ActivityJoinRequestMessage(ActivityJoinRequestMessage),
    ActivityInviteMessage(ActivityInviteMessage),
    OverlayUpdateMessage(OverlayUpdateMessage),
    RelationshipUpdateMessage(RelationshipUpdateMessage),
}

/// The tag of a rich-presence payload: which typed message the drain system
/// republishes it as.
#[derive(Clone, Copy, Debug, PartialEq, Eq, Structural)]
pub enum RichPresenceMessageKind {
    Error,
    Ready,
    Disconnected,
    CurrentUserUpdate,
    ActivityJoin,
    ActivitySpectate,
    ActivityJoinRequest,
    ActivityInvite,
    OverlayUpdate,
    RelationshipUpdate,
}

/// The message type that a rich-presence payload is republished as.
pub open spec fn rich_presence_message_kind(
    m: &MessageCollectionRichPresence,
) -> RichPresenceMessageKind {
    match m {
        MessageCollectionRichPresence::ErrorMessage(_) => RichPresenceMessageKind::Error,
        MessageCollectionRichPresence::RpReadyMessage(_) => RichPresenceMessageKind::Ready,
        MessageCollectionRichPresence::DisconnectedMessage(_) => RichPresenceMessageKind::Disconnected,
        MessageCollectionRichPresence::CurrentUserUpdateMessage(_) => RichPresenceMessageKind::CurrentUserUpdate,
        MessageCollectionRichPresence::ActivityJoinMessage(_) => RichPresenceMessageKind::ActivityJoin,
        MessageCollectionRichPresence::ActivitySpectateMessage(_) => RichPresenceMessageKind::ActivitySpectate,
        MessageCollectionRichPresence::ActivityJoinRequestMessage(_) => RichPresenceMessageKind::ActivityJoinRequest,
        MessageCollectionRichPresence::ActivityInviteMessage(_) => RichPresenceMessageKind::ActivityInvite,
        MessageCollectionRichPresence::OverlayUpdateMessage(_) => RichPresenceMessageKind::OverlayUpdate,
        MessageCollectionRichPresence::RelationshipUpdateMessage(_) => RichPresenceMessageKind::RelationshipUpdate,
    }
}

impl MessageCollectionRichPresence {
    /// Packages an SDK event that has no dedicated case, losing nothing.
    pub fn error(event: Event) -> (m: Self)
        ensures
            m == (MessageCollectionRichPresence::ErrorMessage(ErrorMessage(event))),
    {
        MessageCollectionRichPresence::ErrorMessage(ErrorMessage(event))
    }

    /// Packages the fields of the SDK's ready event, losing and reordering
    /// nothing.
    pub fn ready(version: u32, user: User) -> (m: Self)
        ensures
            m == (MessageCollectionRichPresence::RpReadyMessage(RpReadyMessage { version, user })),
    {
        MessageCollectionRichPresence::RpReadyMessage(RpReadyMessage { version, user })
    }

    /// Packages the reason of the SDK's disconnected event.
    pub fn disconnected(reason: Error) -> (m: Self)
        ensures
            m == (MessageCollectionRichPresence::DisconnectedMessage(DisconnectedMessage { reason })),
    {
        MessageCollectionRichPresence::DisconnectedMessage(DisconnectedMessage { reason })
    }

    /// Packages the fields of the SDK's current-user-update event.
    pub fn current_user_update(user: User) -> (m: Self)
        ensures
            m == (MessageCollectionRichPresence::CurrentUserUpdateMessage(CurrentUserUpdateMessage {
                user,
            })),
    {
        MessageCollectionRichPresence::CurrentUserUpdateMessage(CurrentUserUpdateMessage { user })
    }

    /// Packages the secret of the SDK's activity-join event.
    pub fn activity_join(secret: String) -> (m: Self)
        ensures
            m == (MessageCollectionRichPresence::ActivityJoinMessage(ActivityJoinMessage { secret })),
    {
        MessageCollectionRichPresence::ActivityJoinMessage(ActivityJoinMessage { secret })
    }

    /// Packages the secret of the SDK's activity-spectate event.
    pub fn activity_spectate(secret: String) -> (m: Self)
        ensures
            m == (MessageCollectionRichPresence::ActivitySpectateMessage(ActivitySpectateMessage {
                secret,
            })),
    {
        MessageCollectionRichPresence::ActivitySpectateMessage(ActivitySpectateMessage { secret })
    }

    /// Packages the user of the SDK's activity-join-request event.
    pub fn activity_join_request(user: User) -> (m: Self)
        ensures
            m == (MessageCollectionRichPresence::ActivityJoinRequestMessage(
                ActivityJoinRequestMessage { user },
            )),
    {
        MessageCollectionRichPresence::ActivityJoinRequestMessage(ActivityJoinRequestMessage {
            user,
        })
    }

    /// Packages the invite of the SDK's activity-invite event.
    pub fn activity_invite(invite: Arc<ActivityInvite>) -> (m: Self)
        ensures
            m == (MessageCollectionRichPresence::ActivityInviteMessage(ActivityInviteMessage(
                invite,
            ))),
    {
        MessageCollectionRichPresence::ActivityInviteMessage(ActivityInviteMessage(invite))
    }

    /// Packages the fields of the SDK's overlay-update event, losing and
    /// reordering nothing.
    pub fn overlay_update(enabled: bool, visible: Visibility) -> (m: Self)
        ensures
            m == (MessageCollectionRichPresence::OverlayUpdateMessage(OverlayUpdateMessage {
                enabled,
                visible,
            })),
    {
        MessageCollectionRichPresence::OverlayUpdateMessage(OverlayUpdateMessage {
            enabled,
            visible,
        })
    }

    /// Packages the relationship of the SDK's relationship-update event.
    pub fn relationship_update(relationship: Arc<Relationship>) -> (m: Self)
        ensures
            m == (MessageCollectionRichPresence::RelationshipUpdateMessage(
                RelationshipUpdateMessage(relationship),
            )),
    {
        MessageCollectionRichPresence::RelationshipUpdateMessage(RelationshipUpdateMessage(
            relationship,
        ))
    }

    /// Reads the tag that the drain system dispatches on.
    pub fn kind(&self) -> (k: RichPresenceMessageKind)
        ensures
            k == rich_presence_message_kind(self),
    {
        match self {
            MessageCollectionRichPresence::ErrorMessage(_) => RichPresenceMessageKind::Error,
            MessageCollectionRichPresence::RpReadyMessage(_) => RichPresenceMessageKind::Ready,
            MessageCollectionRichPresence::DisconnectedMessage(_) => RichPresenceMessageKind::Disconnected,
            MessageCollectionRichPresence::CurrentUserUpdateMessage(_) => RichPresenceMessageKind::CurrentUserUpdate,
            MessageCollectionRichPresence::ActivityJoinMessage(_) => RichPresenceMessageKind::ActivityJoin,
            MessageCollectionRichPresence::ActivitySpectateMessage(_) => RichPresenceMessageKind::ActivitySpectate,
            MessageCollectionRichPresence::ActivityJoinRequestMessage(_) => RichPresenceMessageKind::ActivityJoinRequest,
            MessageCollectionRichPresence::ActivityInviteMessage(_) => RichPresenceMessageKind::ActivityInvite,
            MessageCollectionRichPresence::OverlayUpdateMessage(_) => RichPresenceMessageKind::OverlayUpdate,
            MessageCollectionRichPresence::RelationshipUpdateMessage(_) => RichPresenceMessageKind::RelationshipUpdate,
        }
    }
}

/// Each payload case is republished as exactly one message type, and no two
/// cases share one: a payload carries a given tag exactly when it is the
/// matching case of the union.
pub proof fn lemma_rich_presence_kind_identifies_case(m: &MessageCollectionRichPresence)
    ensures
        (rich_presence_message_kind(m) == RichPresenceMessageKind::Error) <==> m is ErrorMessage,
        (rich_presence_message_kind(m) == RichPresenceMessageKind::Ready) <==> m is RpReadyMessage,
        (rich_presence_message_kind(m) == RichPresenceMessageKind::Disconnected)
            <==> m is DisconnectedMessage,
        (rich_presence_message_kind(m) == RichPresenceMessageKind::CurrentUserUpdate)
            <==> m is CurrentUserUpdateMessage,
        (rich_presence_message_kind(m) == RichPresenceMessageKind::ActivityJoin)
            <==> m is ActivityJoinMessage,
        (rich_presence_message_kind(m) == RichPresenceMessageKind::ActivitySpectate)
            <==> m is ActivitySpectateMessage,
        (rich_presence_message_kind(m) == RichPresenceMessageKind::ActivityJoinRequest)
            <==> m is ActivityJoinRequestMessage,
        (rich_presence_message_kind(m) == RichPresenceMessageKind::ActivityInvite)
            <==> m is ActivityInviteMessage,
        (rich_presence_message_kind(m) == RichPresenceMessageKind::OverlayUpdate)
            <==> m is OverlayUpdateMessage,
        (rich_presence_message_kind(m) == RichPresenceMessageKind::RelationshipUpdate)
            <==> m is RelationshipUpdateMessage,
{
}

} // verus!
