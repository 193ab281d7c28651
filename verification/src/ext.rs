//! Declarations that let types of the wrapped client libraries appear in this
//! crate's signatures and fields. Each declared type is opaque here: the crate
//! carries such values through without reading their contents.

use vstd::prelude::*;

verus! {

#[verifier::external_type_specification]
#[verifier::external_body]
pub struct ExContext(serenity::all::Context);

#[verifier::external_type_specification]
#[verifier::external_body]
pub struct ExCommandPermissions(serenity::all::CommandPermissions);

#[verifier::external_type_specification]
#[verifier::external_body]
pub struct ExRule(serenity::all::Rule);

#[verifier::external_type_specification]
#[verifier::external_body]
pub struct ExActionExecution(serenity::all::ActionExecution);

#[verifier::external_type_specification]
#[verifier::external_body]
pub struct ExGuildId(serenity::all::GuildId);

#[verifier::external_type_specification]
#[verifier::external_body]
pub struct ExGuildChannel(serenity::all::GuildChannel);

#[verifier::external_type_specification]
#[verifier::external_body]
pub struct ExMessage(serenity::all::Message);

#[verifier::external_type_specification]
#[verifier::external_body]
pub struct ExChannelPinsUpdateEvent(serenity::all::ChannelPinsUpdateEvent);

#[verifier::external_type_specification]
#[verifier::external_body]
pub struct ExAuditLogEntry(serenity::all::AuditLogEntry);

#[verifier::external_type_specification]
#[verifier::external_body]
pub struct ExUser(serenity::all::User);

#[verifier::external_type_specification]
#[verifier::external_body]
pub struct ExGuild(serenity::all::Guild);

#[verifier::external_type_specification]
#[verifier::external_body]
pub struct ExUnavailableGuild(serenity::all::UnavailableGuild);

#[verifier::external_type_specification]
#[verifier::external_body]
pub struct ExEmojiId(serenity::all::EmojiId);

#[verifier::external_type_specification]
#[verifier::external_body]
pub struct ExEmoji(serenity::all::Emoji);

#[verifier::external_type_specification]
#[verifier::external_body]
pub struct ExMember(serenity::all::Member);

#[verifier::external_type_specification]
#[verifier::external_body]
pub struct ExGuildMemberUpdateEvent(serenity::all::GuildMemberUpdateEvent);

#[verifier::external_type_specification]
#[verifier::external_body]
pub struct ExGuildMembersChunkEvent(serenity::all::GuildMembersChunkEvent);

#[verifier::external_type_specification]
#[verifier::external_body]
pub struct ExRole(serenity::all::Role);

#[verifier::external_type_specification]
#[verifier::external_body]
pub struct ExRoleId(serenity::all::RoleId);

#[verifier::external_type_specification]
#[verifier::external_body]
pub struct ExStickerId(serenity::all::StickerId);

#[verifier::external_type_specification]
#[verifier::external_body]
pub struct ExSticker(serenity::all::Sticker);

#[verifier::external_type_specification]
#[verifier::external_body]
pub struct ExPartialGuild(serenity::all::PartialGuild);

#[verifier::external_type_specification]
#[verifier::external_body]
pub struct ExInviteCreateEvent(serenity::all::InviteCreateEvent);

#[verifier::external_type_specification]
#[verifier::external_body]
pub struct ExInviteDeleteEvent(serenity::all::InviteDeleteEvent);

#[verifier::external_type_specification]
#[verifier::external_body]
pub struct ExChannelId(serenity::all::ChannelId);

#[verifier::external_type_specification]
#[verifier::external_body]
pub struct ExMessageId(serenity::all::MessageId);

#[verifier::external_type_specification]
#[verifier::external_body]
pub struct ExMessageUpdateEvent(serenity::all::MessageUpdateEvent);

#[verifier::external_type_specification]
#[verifier::external_body]
pub struct ExReaction(serenity::all::Reaction);

#[verifier::external_type_specification]
#[verifier::external_body]
pub struct ExPresence(serenity::all::Presence);

#[verifier::external_type_specification]
#[verifier::external_body]
pub struct ExReady(serenity::all::Ready);

#[verifier::external_type_specification]
#[verifier::external_body]
pub struct ExResumedEvent(serenity::all::ResumedEvent);

#[verifier::external_type_specification]
#[verifier::external_body]
pub struct ExShardStageUpdateEvent(serenity::all::ShardStageUpdateEvent);

#[verifier::external_type_specification]
#[verifier::external_body]
pub struct ExTypingStartEvent(serenity::all::TypingStartEvent);

#[verifier::external_type_specification]
#[verifier::external_body]
pub struct ExCurrentUser(serenity::all::CurrentUser);

#[verifier::external_type_specification]
#[verifier::external_body]
pub struct ExVoiceServerUpdateEvent(serenity::all::VoiceServerUpdateEvent);

#[verifier::external_type_specification]
#[verifier::external_body]
pub struct ExVoiceState(serenity::all::VoiceState);

#[verifier::external_type_specification]
#[verifier::external_body]
pub struct ExInteraction(serenity::all::Interaction);

#[verifier::external_type_specification]
#[verifier::external_body]
pub struct ExIntegration(serenity::all::Integration);

#[verifier::external_type_specification]
#[verifier::external_body]
pub struct ExStageInstance(serenity::all::StageInstance);

#[verifier::external_type_specification]
#[verifier::external_body]
pub struct ExPartialGuildChannel(serenity::all::PartialGuildChannel);

#[verifier::external_type_specification]
#[verifier::external_body]
pub struct ExThreadListSyncEvent(serenity::all::ThreadListSyncEvent);

#[verifier::external_type_specification]
#[verifier::external_body]
pub struct ExThreadMember(serenity::all::ThreadMember);

#[verifier::external_type_specification]
#[verifier::external_body]
pub struct ExThreadMembersUpdateEvent(serenity::all::ThreadMembersUpdateEvent);

#[verifier::external_type_specification]
#[verifier::external_body]
pub struct ExScheduledEvent(serenity::all::ScheduledEvent);

#[verifier::external_type_specification]
#[verifier::external_body]
pub struct ExGuildScheduledEventUserAddEvent(serenity::all::GuildScheduledEventUserAddEvent);

#[verifier::external_type_specification]
#[verifier::external_body]
pub struct ExGuildScheduledEventUserRemoveEvent(serenity::all::GuildScheduledEventUserRemoveEvent);

#[verifier::external_type_specification]
#[verifier::external_body]
pub struct ExEntitlement(serenity::all::Entitlement);

#[verifier::external_type_specification]
#[verifier::external_body]
pub struct ExMessagePollVoteAddEvent(serenity::all::MessagePollVoteAddEvent);

#[verifier::external_type_specification]
#[verifier::external_body]
pub struct ExMessagePollVoteRemoveEvent(serenity::all::MessagePollVoteRemoveEvent);

#[verifier::external_type_specification]
#[verifier::external_body]
pub struct ExRatelimitInfo(serenity::all::RatelimitInfo);

#[verifier::external_type_specification]
#[verifier::external_body]
pub struct ExGatewayIntents(serenity::all::GatewayIntents);

#[verifier::external_type_specification]
#[verifier::external_body]
pub struct ExOnlineStatus(serenity::all::OnlineStatus);

#[verifier::external_type_specification]
#[verifier::external_body]
pub struct ExActivityData(serenity::all::ActivityData);

#[verifier::external_type_specification]
#[verifier::external_body]
pub struct ExHttp(serenity::all::Http);

#[verifier::external_type_specification]
#[verifier::external_body]
pub struct ExSubscriptions(discord_sdk::Subscriptions);

#[verifier::external_type_specification]
#[verifier::external_body]
pub struct ExDiscord(discord_sdk::Discord);

#[verifier::external_type_specification]
#[verifier::external_body]
pub struct ExSdkError(discord_sdk::Error);

#[verifier::external_type_specification]
#[verifier::external_body]
pub struct ExSdkEvent(discord_sdk::Event);

#[verifier::external_type_specification]
#[verifier::external_body]
pub struct ExSdkUser(discord_sdk::user::User);

#[verifier::external_type_specification]
#[verifier::external_body]
pub struct ExActivityInvite(discord_sdk::activity::ActivityInvite);

#[verifier::external_type_specification]
#[verifier::external_body]
pub struct ExRelationship(discord_sdk::relations::Relationship);

#[verifier::external_type_specification]
#[verifier::external_body]
pub struct ExVisibility(discord_sdk::overlay::Visibility);

/// Relies on the derived GatewayIntents::clone: a copy of the flag set.
pub assume_specification[ <serenity::all::GatewayIntents as Clone>::clone ](
    v: &serenity::all::GatewayIntents,
) -> (r: serenity::all::GatewayIntents)
    ensures
        r == *v,
;

/// Relies on the derived OnlineStatus::clone: a copy of the status.
pub assume_specification[ <serenity::all::OnlineStatus as Clone>::clone ](
    v: &serenity::all::OnlineStatus,
) -> (r: serenity::all::OnlineStatus)
    ensures
        r == *v,
;

/// Relies on the derived ActivityData::clone: an equal activity value.
pub assume_specification[ <serenity::all::ActivityData as Clone>::clone ](
    v: &serenity::all::ActivityData,
) -> (r: serenity::all::ActivityData)
    ensures
        r == *v,
;

/// Relies on the derived Subscriptions::clone: a copy of the flag set.
pub assume_specification[ <discord_sdk::Subscriptions as Clone>::clone ](
    v: &discord_sdk::Subscriptions,
) -> (r: discord_sdk::Subscriptions)
    ensures
        r == *v,
;

#[verifier::external_type_specification]
#[verifier::external_body]
#[verifier::reject_recursive_types(T)]
pub struct ExSender<T>(flume::Sender<T>);

#[verifier::external_type_specification]
#[verifier::external_body]
#[verifier::reject_recursive_types(T)]
pub struct ExReceiver<T>(flume::Receiver<T>);

} // verus!
