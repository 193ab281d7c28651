//! Bot-side relay payloads: one case per Discord gateway callback that the
//! bot half of the relay listens to.

use vstd::prelude::*;

verus! {

use std::collections::HashMap;
use serenity::all::Context;
use serenity::all::CommandPermissions;
use serenity::all::Rule;
use serenity::all::ActionExecution;
use serenity::all::GuildId;
use serenity::all::GuildChannel;
use serenity::all::Message;
use serenity::all::ChannelPinsUpdateEvent;
use serenity::all::AuditLogEntry;
use serenity::all::User;
use serenity::all::Guild;
use serenity::all::UnavailableGuild;
use serenity::all::EmojiId;
use serenity::all::Emoji;
use serenity::all::Member;
use serenity::all::GuildMemberUpdateEvent;
use serenity::all::GuildMembersChunkEvent;
use serenity::all::Role;
use serenity::all::RoleId;
use serenity::all::StickerId;
use serenity::all::Sticker;
use serenity::all::PartialGuild;
use serenity::all::InviteCreateEvent;
use serenity::all::InviteDeleteEvent;
use serenity::all::ChannelId;
use serenity::all::MessageId;
use serenity::all::MessageUpdateEvent;
use serenity::all::Reaction;
use serenity::all::Presence;
use serenity::all::Ready;
use serenity::all::ResumedEvent;
use serenity::all::ShardStageUpdateEvent;
use serenity::all::TypingStartEvent;
use serenity::all::CurrentUser;
use serenity::all::VoiceServerUpdateEvent;
use serenity::all::VoiceState;
use serenity::all::Interaction;
use serenity::all::Integration;
use serenity::all::StageInstance;
use serenity::all::PartialGuildChannel;
use serenity::all::ThreadListSyncEvent;
use serenity::all::ThreadMember;
use serenity::all::ThreadMembersUpdateEvent;
use serenity::all::ScheduledEvent;
use serenity::all::GuildScheduledEventUserAddEvent;
use serenity::all::GuildScheduledEventUserRemoveEvent;
use serenity::all::Entitlement;
use serenity::all::MessagePollVoteAddEvent;
use serenity::all::MessagePollVoteRemoveEvent;
use serenity::all::RatelimitInfo;

/// Dispatched when the permissions of an application command was updated.
pub struct CommandPermissionsUpdateMessage {
    pub ctx: Context,
    pub permission: CommandPermissions,
}

/// Dispatched when an auto moderation rule was created.
pub struct AutoModerationRuleCreateMessage {
    pub ctx: Context,
    pub rule: Rule,
}

/// Dispatched when an auto moderation rule was updated.
pub struct AutoModerationRuleUpdateMessage {
    pub ctx: Context,
    pub rule: Rule,
}

/// Dispatched when an auto moderation rule was deleted.
pub struct AutoModerationRuleDeleteMessage {
    pub ctx: Context,
    pub rule: Rule,
}

/// Dispatched when an auto moderation rule was triggered and an action was executed.
pub struct AutoModerationActionExecutionMessage {
    pub ctx: Context,
    pub execution: ActionExecution,
}

/// Dispatched when the cache has received and inserted all data from guilds.
pub struct CacheReadMessage {
    pub ctx: Context,
    pub guilds: Vec<GuildId>,
}

/// Dispatched when every shard has received a Ready event.
pub struct ShardsReadyMessage {
    pub ctx: Context,
    pub total_shards: u32,
}

/// Dispatched when a channel is created.
pub struct ChannelCreateMessage {
    pub ctx: Context,
    pub channel: GuildChannel,
}

/// Dispatched when a category is created.
pub struct CategoryCreateMessage {
    pub ctx: Context,
    pub category: GuildChannel,
}

/// Dispatched when a category is deleted.
pub struct CategoryDeleteMessage {
    pub ctx: Context,
    pub category: GuildChannel,
}

/// Dispatched when a channel is deleted.
pub struct ChannelDeleteMessage {
    pub ctx: Context,
    pub channel: GuildChannel,
    pub messages: Option<Vec<Message>>,
}

/// Dispatched when a pin is added or deleted in a channel.
pub struct ChannelPinUpdateMessage {
    pub ctx: Context,
    pub pin: ChannelPinsUpdateEvent,
}

/// Dispatched when a channel is updated.
pub struct ChannelUpdateMessage {
    pub ctx: Context,
    pub old: Option<GuildChannel>,
    pub new: GuildChannel,
}

/// Dispatched when a new audit log entry is created.
pub struct GuildAuditLogEntryCreateMessage {
    pub ctx: Context,
    pub entry: AuditLogEntry,
    pub guild_id: GuildId,
}

/// Dispatched when a user is banned from a guild.
pub struct GuildBanAdditionMessage {
    pub ctx: Context,
    pub guild_id: GuildId,
    pub banned_user: User,
}

/// Dispatched when a user's ban is lifted from a guild.
pub struct GuildBanRemovalMessage {
    pub ctx: Context,
    pub guild_id: GuildId,
    pub unbanned_user: User,
}

/// Dispatched when a guild is created, or when the bot joins or observes a guild.
pub struct GuildCreateMessage {
    pub ctx: Context,
    pub guild: Guild,
    pub is_new: Option<bool>,
}

/// Dispatched when a guild is deleted or becomes unavailable.
pub struct GuildDeleteMessage {
    pub ctx: Context,
    pub incomplete: UnavailableGuild,
    pub full: Option<Guild>,
}

/// Dispatched when a guild's emojis are added, updated or deleted.
pub struct GuildEmojisUpdateMessage {
    pub ctx: Context,
    pub guild_id: GuildId,
    pub current_state: HashMap<EmojiId, Emoji>,
}

/// Dispatched when a guild's integration is added, updated or deleted.
pub struct GuildIntegrationsUpdateMessage {
    pub ctx: Context,
    pub guild_id: GuildId,
}

/// Dispatched when a user joins a guild.
pub struct GuildMemberAdditionMessage {
    pub ctx: Context,
    pub new_member: Member,
}

/// Dispatched when a user's membership ends, either by leaving or being kicked or banned.
pub struct GuildMemberRemovalMessage {
    pub ctx: Context,
    pub guild_id: GuildId,
    pub user: User,
    pub member_data_if_available: Option<Member>,
}

/// Dispatched when a member is updated, for example when its nickname or roles change.
pub struct GuildMemberUpdateMessage {
    pub ctx: Context,
    pub old_if_available: Option<Member>,
    pub new: Option<Member>,
    pub event: GuildMemberUpdateEvent,
}

/// Dispatched when the data for offline members was requested.
pub struct GuildMembersChunkMessage {
    pub ctx: Context,
    pub chunk: GuildMembersChunkEvent,
}

/// Dispatched when a role is created in a guild.
pub struct GuildRoleCreateMessage {
    pub ctx: Context,
    pub new: Role,
}

/// Dispatched when a role is deleted in a guild.
pub struct GuildRoleDeleteMessage {
    pub ctx: Context,
    pub guild_id: GuildId,
    pub removed_role_id: RoleId,
    pub removed_role_data_if_available: Option<Role>,
}

/// Dispatched when a role is updated in a guild.
pub struct GuildRoleUpdateMessage {
    pub ctx: Context,
    pub old_data_if_available: Option<Role>,
    pub new: Role,
}

/// Dispatched when a guild's stickers are added, updated or deleted.
pub struct GuildStickersUpdateMessage {
    pub ctx: Context,
    pub guild_id: GuildId,
    pub current_state: HashMap<StickerId, Sticker>,
}

/// Dispatched when a guild is updated.
pub struct GuildUpdateMessage {
    pub ctx: Context,
    pub old_data_if_available: Option<Guild>,
    pub new_data: PartialGuild,
}

/// Dispatched when an invite is created.
pub struct InviteCreateMessage {
    pub ctx: Context,
    pub data: InviteCreateEvent,
}

/// Dispatched when an invite is deleted.
pub struct InviteDeleteMessage {
    pub ctx: Context,
    pub data: InviteDeleteEvent,
}

/// Dispatched when a message is created.
pub struct DiscordMessage {
    pub ctx: Context,
    pub new_message: Message,
}

/// Dispatched when a message is deleted.
pub struct DiscordMessageDeleteMessage {
    pub ctx: Context,
    pub channel_id: ChannelId,
    pub deleted_message_id: MessageId,
    pub guild_id: Option<GuildId>,
}

/// Dispatched when multiple messages were deleted at once.
pub struct DiscordMessageDeleteBulkMessage {
    pub ctx: Context,
    pub channel_id: ChannelId,
    pub multiple_deleted_messages_ids: Vec<MessageId>,
    pub guild_id: Option<GuildId>,
}

/// Dispatched when a message is updated.
pub struct DiscordMessageUpdateMessage {
    pub ctx: Context,
    pub old_if_available: Option<Message>,
    pub new: Option<Message>,
    pub event: MessageUpdateEvent,
}

/// Dispatched when a new reaction is attached to a message.
pub struct ReactionAddMessage {
    pub ctx: Context,
    pub add_reaction: Reaction,
}

/// Dispatched when a reaction is detached from a message.
pub struct ReactionRemoveMessage {
    pub ctx: Context,
    pub removed_reaction: Reaction,
}

/// Dispatched when all reactions of a message are detached from a message.
pub struct ReactionRemoveAllMessage {
    pub ctx: Context,
    pub channel_id: ChannelId,
    pub removed_from_message_id: MessageId,
}

/// Dispatched when all reactions of a given emoji are detached from a message.
pub struct ReactionRemoveEmojiMessage {
    pub ctx: Context,
    pub removed_reactions: Reaction,
}

/// Dispatched when a user's presence is updated, for example its status or avatar.
pub struct PresenceUpdateMessage {
    pub ctx: Context,
    pub new_data: Presence,
}

/// Dispatched upon startup, with data about the bot and the guilds it is in.
pub struct BotReadyMessage {
    pub ctx: Context,
    pub data_about_bot: Ready,
}

/// Dispatched upon reconnection after a resume.
pub struct ResumeMessage {
    pub ctx: Context,
    pub event: ResumedEvent,
}

/// Dispatched when a shard's connection stage is updated.
pub struct ShardStageUpdateMessage {
    pub ctx: Context,
    pub event: ShardStageUpdateEvent,
}

/// Dispatched when a user starts typing.
pub struct TypingStartMessage {
    pub ctx: Context,
    pub event: TypingStartEvent,
}

/// Dispatched when the bot's data is updated.
pub struct UserUpdateMessage {
    pub ctx: Context,
    pub old_data: Option<CurrentUser>,
    pub new: CurrentUser,
}

/// Dispatched when a guild's voice server is updated.
pub struct VoiceServerUpdateMessage {
    pub ctx: Context,
    pub event: VoiceServerUpdateEvent,
}

/// Dispatched when a user joins, leaves or moves to a voice channel.
pub struct VoiceStateUpdateMessage {
    pub ctx: Context,
    pub old: Option<VoiceState>,
    pub new: VoiceState,
}

/// Dispatched when a voice channel's status is updated.
pub struct VoiceChannelStatusUpdateMessage {
    pub ctx: Context,
    pub old: Option<String>,
    pub status: Option<String>,
    pub id: ChannelId,
    pub guild_id: GuildId,
}

/// Dispatched when a channel's webhook is updated.
pub struct WebhookUpdateMessage {
    pub ctx: Context,
    pub guild_id: GuildId,
    pub belongs_to_channel_id: ChannelId,
}

/// Dispatched when an interaction is created, for example a slash command was used.
pub struct InteractionCreateMessage {
    pub ctx: Context,
    pub interaction: Interaction,
}

/// Dispatched when a guild integration is created.
pub struct IntegrationCreateMessage {
    pub ctx: Context,
    pub integration: Integration,
}

/// Dispatched when a guild integration is updated.
pub struct IntegrationUpdateMessage {
    pub ctx: Context,
    pub integration: Integration,
}

/// Dispatched when a stage instance is created.
pub struct StageInstanceCreateMessage {
    pub ctx: Context,
    pub stage_instance: StageInstance,
}

/// Dispatched when a stage instance is updated.
pub struct StageInstanceUpdateMessage {
    pub ctx: Context,
    pub stage_instance: StageInstance,
}

/// Dispatched when a stage instance is deleted.
pub struct StageInstanceDeleteMessage {
    pub ctx: Context,
    pub stage_instance: StageInstance,
}

/// Dispatched when a thread is created or the bot gains access to a thread.
pub struct ThreadCreateMessage {
    pub ctx: Context,
    pub thread: GuildChannel,
}

/// Dispatched when a thread is updated.
pub struct ThreadUpdateMessage {
    pub ctx: Context,
    pub old: Option<GuildChannel>,
    pub new: GuildChannel,
}

/// Dispatched when a thread is deleted.
pub struct ThreadDeleteMessage {
    pub ctx: Context,
    pub thread: PartialGuildChannel,
    pub full_thread_data: Option<GuildChannel>,
}

/// Dispatched when the bot gains access to a channel that has threads.
pub struct ThreadListSyncMessage {
    pub ctx: Context,
    pub thread_list_sync: ThreadListSyncEvent,
}

/// Dispatched when the thread member object for the bot is updated.
pub struct ThreadMemberUpdateMessage {
    pub ctx: Context,
    pub thread_member: ThreadMember,
}

/// Dispatched when anyone is added to or removed from a thread.
pub struct ThreadMembersUpdateMessage {
    pub ctx: Context,
    pub thread_members_update: ThreadMembersUpdateEvent,
}

/// Dispatched when a scheduled event is created.
pub struct GuildScheduledEventCreateMessage {
    pub ctx: Context,
    pub event: ScheduledEvent,
}

/// Dispatched when a scheduled event is updated.
pub struct GuildScheduledEventUpdateMessage {
    pub ctx: Context,
    pub event: ScheduledEvent,
}

/// Dispatched when a scheduled event is deleted.
pub struct GuildScheduledEventDeleteMessage {
    pub ctx: Context,
    pub event: ScheduledEvent,
}

/// Dispatched when a guild member has subscribed to a scheduled event.
pub struct GuildScheduledEventUserAddMessage {
    pub ctx: Context,
    pub subscribed: GuildScheduledEventUserAddEvent,
}

/// Dispatched when a guild member has unsubscribed from a scheduled event.
pub struct GuildScheduledEventUserRemoveMessage {
    pub ctx: Context,
    pub unsubscribed: GuildScheduledEventUserRemoveEvent,
}

/// Dispatched when a user subscribes to a SKU.
pub struct EntitlementCreateMessage {
    pub ctx: Context,
    pub entitlement: Entitlement,
}

/// Dispatched when a user's entitlement is updated, for example when a subscription renews.
pub struct EntitlementUpdateMessage {
    pub ctx: Context,
    pub entitlement: Entitlement,
}

/// Dispatched when a user's entitlement is deleted.
pub struct EntitlementDeleteMessage {
    pub ctx: Context,
    pub entitlement: Entitlement,
}

/// Dispatched when a user votes on a message poll.
pub struct PollVoteAddMessage {
    pub ctx: Context,
    pub event: MessagePollVoteAddEvent,
}

/// Dispatched when a user removes a previous vote on a message poll.
pub struct PollVoteRemoveMessage {
    pub ctx: Context,
    pub event: MessagePollVoteRemoveEvent,
}

/// Dispatched when an HTTP rate limit is hit.
pub struct RateLimitMessage {
    pub data: RatelimitInfo,
}

/// Everything the bot half of the relay can carry. Exactly one case is active
/// per queue entry; each case holds exactly the arguments of one callback.
pub enum MessageCollectionBot {
    CommandPermissionsUpdateMessage(CommandPermissionsUpdateMessage),
    AutoModerationRuleCreateMessage(AutoModerationRuleCreateMessage),
    AutoModerationRuleUpdateMessage(AutoModerationRuleUpdateMessage),
    AutoModerationRuleDeleteMessage(AutoModerationRuleDeleteMessage),
    AutoModerationActionExecutionMessage(AutoModerationActionExecutionMessage),
    CacheReadMessage(CacheReadMessage),
    ShardsReadyMessage(ShardsReadyMessage),
    ChannelCreateMessage(ChannelCreateMessage),
    CategoryCreateMessage(CategoryCreateMessage),
    CategoryDeleteMessage(CategoryDeleteMessage),
    ChannelDeleteMessage(ChannelDeleteMessage),
    ChannelPinUpdateMessage(ChannelPinUpdateMessage),
    ChannelUpdateMessage(ChannelUpdateMessage),
    GuildAuditLogEntryCreateMessage(GuildAuditLogEntryCreateMessage),
    GuildBanAdditionMessage(GuildBanAdditionMessage),
    GuildBanRemovalMessage(GuildBanRemovalMessage),
    GuildCreateMessage(GuildCreateMessage),
    GuildDeleteMessage(GuildDeleteMessage),
    GuildEmojisUpdateMessage(GuildEmojisUpdateMessage),
    GuildIntegrationsUpdateMessage(GuildIntegrationsUpdateMessage),
    GuildMemberAdditionMessage(GuildMemberAdditionMessage),
    GuildMemberRemovalMessage(GuildMemberRemovalMessage),
    GuildMemberUpdateMessage(GuildMemberUpdateMessage),
    GuildMembersChunkMessage(GuildMembersChunkMessage),
    GuildRoleCreateMessage(GuildRoleCreateMessage),
    GuildRoleDeleteMessage(GuildRoleDeleteMessage),
    GuildRoleUpdateMessage(GuildRoleUpdateMessage),
    GuildStickersUpdateMessage(GuildStickersUpdateMessage),
    GuildUpdateMessage(GuildUpdateMessage),
    InviteCreateMessage(InviteCreateMessage),
    InviteDeleteMessage(InviteDeleteMessage),
    DiscordMessage(DiscordMessage),
    DiscordMessageDeleteMessage(DiscordMessageDeleteMessage),
    DiscordMessageDeleteBulkMessage(DiscordMessageDeleteBulkMessage),
    DiscordMessageUpdateMessage(DiscordMessageUpdateMessage),
    ReactionAddMessage(ReactionAddMessage),
    ReactionRemoveMessage(ReactionRemoveMessage),
    ReactionRemoveAllMessage(ReactionRemoveAllMessage),
    ReactionRemoveEmojiMessage(ReactionRemoveEmojiMessage),
    PresenceUpdateMessage(PresenceUpdateMessage),
    BotReadyMessage(BotReadyMessage),
    ResumeMessage(ResumeMessage),
    ShardStageUpdateMessage(ShardStageUpdateMessage),
    TypingStartMessage(TypingStartMessage),
    UserUpdateMessage(UserUpdateMessage),
    VoiceServerUpdateMessage(VoiceServerUpdateMessage),
    VoiceStateUpdateMessage(VoiceStateUpdateMessage),
    VoiceChannelStatusUpdateMessage(VoiceChannelStatusUpdateMessage),
    WebhookUpdateMessage(WebhookUpdateMessage),
    InteractionCreateMessage(InteractionCreateMessage),
    IntegrationCreateMessage(IntegrationCreateMessage),
    IntegrationUpdateMessage(IntegrationUpdateMessage),
    StageInstanceCreateMessage(StageInstanceCreateMessage),
    StageInstanceUpdateMessage(StageInstanceUpdateMessage),
    StageInstanceDeleteMessage(StageInstanceDeleteMessage),
    ThreadCreateMessage(ThreadCreateMessage),
    ThreadUpdateMessage(ThreadUpdateMessage),
    ThreadDeleteMessage(ThreadDeleteMessage),
    ThreadListSyncMessage(ThreadListSyncMessage),
    ThreadMemberUpdateMessage(ThreadMemberUpdateMessage),
    ThreadMembersUpdateMessage(ThreadMembersUpdateMessage),
    GuildScheduledEventCreateMessage(GuildScheduledEventCreateMessage),
    GuildScheduledEventUpdateMessage(GuildScheduledEventUpdateMessage),
    GuildScheduledEventDeleteMessage(GuildScheduledEventDeleteMessage),
    GuildScheduledEventUserAddMessage(GuildScheduledEventUserAddMessage),
    GuildScheduledEventUserRemoveMessage(GuildScheduledEventUserRemoveMessage),
    EntitlementCreateMessage(EntitlementCreateMessage),
    EntitlementUpdateMessage(EntitlementUpdateMessage),
    EntitlementDeleteMessage(EntitlementDeleteMessage),
    PollVoteAddMessage(PollVoteAddMessage),
    PollVoteRemoveMessage(PollVoteRemoveMessage),
    RateLimitMessage(RateLimitMessage),
}

/// The tag of a bot payload: which typed message the drain system republishes
/// it as.
#[derive(Clone, Copy, Debug, PartialEq, Eq, Structural)]
pub enum BotMessageKind {
    CommandPermissionsUpdate,
    AutoModerationRuleCreate,
    AutoModerationRuleUpdate,
    AutoModerationRuleDelete,
    AutoModerationActionExecution,
    CacheRead,
    ShardsReady,
    ChannelCreate,
    CategoryCreate,
    CategoryDelete,
    ChannelDelete,
    ChannelPinUpdate,
    ChannelUpdate,
    GuildAuditLogEntryCreate,
    GuildBanAddition,
    GuildBanRemoval,
    GuildCreate,
    GuildDelete,
    GuildEmojisUpdate,
    GuildIntegrationsUpdate,
    GuildMemberAddition,
    GuildMemberRemoval,
    GuildMemberUpdate,
    GuildMembersChunk,
    GuildRoleCreate,
    GuildRoleDelete,
    GuildRoleUpdate,
    GuildStickersUpdate,
    GuildUpdate,
    InviteCreate,
    InviteDelete,
    DiscordMessage,
    DiscordMessageDelete,
    DiscordMessageDeleteBulk,
    DiscordMessageUpdate,
    ReactionAdd,
    ReactionRemove,
    ReactionRemoveAll,
    ReactionRemoveEmoji,
    PresenceUpdate,
    BotReady,
    Resume,
    ShardStageUpdate,
    TypingStart,
    UserUpdate,
    VoiceServerUpdate,
    VoiceStateUpdate,
    VoiceChannelStatusUpdate,
    WebhookUpdate,
    InteractionCreate,
    IntegrationCreate,
    IntegrationUpdate,
    StageInstanceCreate,
    StageInstanceUpdate,
    StageInstanceDelete,
    ThreadCreate,
    ThreadUpdate,
    ThreadDelete,
    ThreadListSync,
    ThreadMemberUpdate,
    ThreadMembersUpdate,
    GuildScheduledEventCreate,
    GuildScheduledEventUpdate,
    GuildScheduledEventDelete,
    GuildScheduledEventUserAdd,
    GuildScheduledEventUserRemove,
    EntitlementCreate,
    EntitlementUpdate,
    EntitlementDelete,
    PollVoteAdd,
    PollVoteRemove,
    RateLimit,
}

/// The message type that a bot payload is republished as.
pub open spec fn bot_message_kind(m: &MessageCollectionBot) -> BotMessageKind {
    match m {
        MessageCollectionBot::CommandPermissionsUpdateMessage(_) => BotMessageKind::CommandPermissionsUpdate,
        MessageCollectionBot::AutoModerationRuleCreateMessage(_) => BotMessageKind::AutoModerationRuleCreate,
        MessageCollectionBot::AutoModerationRuleUpdateMessage(_) => BotMessageKind::AutoModerationRuleUpdate,
        MessageCollectionBot::AutoModerationRuleDeleteMessage(_) => BotMessageKind::AutoModerationRuleDelete,
        MessageCollectionBot::AutoModerationActionExecutionMessage(_) => BotMessageKind::AutoModerationActionExecution,
        MessageCollectionBot::CacheReadMessage(_) => BotMessageKind::CacheRead,
        MessageCollectionBot::ShardsReadyMessage(_) => BotMessageKind::ShardsReady,
        MessageCollectionBot::ChannelCreateMessage(_) => BotMessageKind::ChannelCreate,
        MessageCollectionBot::CategoryCreateMessage(_) => BotMessageKind::CategoryCreate,
        MessageCollectionBot::CategoryDeleteMessage(_) => BotMessageKind::CategoryDelete,
        MessageCollectionBot::ChannelDeleteMessage(_) => BotMessageKind::ChannelDelete,
        MessageCollectionBot::ChannelPinUpdateMessage(_) => BotMessageKind::ChannelPinUpdate,
        MessageCollectionBot::ChannelUpdateMessage(_) => BotMessageKind::ChannelUpdate,
        MessageCollectionBot::GuildAuditLogEntryCreateMessage(_) => BotMessageKind::GuildAuditLogEntryCreate,
        MessageCollectionBot::GuildBanAdditionMessage(_) => BotMessageKind::GuildBanAddition,
        MessageCollectionBot::GuildBanRemovalMessage(_) => BotMessageKind::GuildBanRemoval,
        MessageCollectionBot::GuildCreateMessage(_) => BotMessageKind::GuildCreate,
        MessageCollectionBot::GuildDeleteMessage(_) => BotMessageKind::GuildDelete,
        MessageCollectionBot::GuildEmojisUpdateMessage(_) => BotMessageKind::GuildEmojisUpdate,
        MessageCollectionBot::GuildIntegrationsUpdateMessage(_) => BotMessageKind::GuildIntegrationsUpdate,
        MessageCollectionBot::GuildMemberAdditionMessage(_) => BotMessageKind::GuildMemberAddition,
        MessageCollectionBot::GuildMemberRemovalMessage(_) => BotMessageKind::GuildMemberRemoval,
        MessageCollectionBot::GuildMemberUpdateMessage(_) => BotMessageKind::GuildMemberUpdate,
        MessageCollectionBot::GuildMembersChunkMessage(_) => BotMessageKind::GuildMembersChunk,
        MessageCollectionBot::GuildRoleCreateMessage(_) => BotMessageKind::GuildRoleCreate,
        MessageCollectionBot::GuildRoleDeleteMessage(_) => BotMessageKind::GuildRoleDelete,
        MessageCollectionBot::GuildRoleUpdateMessage(_) => BotMessageKind::GuildRoleUpdate,
        MessageCollectionBot::GuildStickersUpdateMessage(_) => BotMessageKind::GuildStickersUpdate,
        MessageCollectionBot::GuildUpdateMessage(_) => BotMessageKind::GuildUpdate,
        MessageCollectionBot::InviteCreateMessage(_) => BotMessageKind::InviteCreate,
        MessageCollectionBot::InviteDeleteMessage(_) => BotMessageKind::InviteDelete,
        MessageCollectionBot::DiscordMessage(_) => BotMessageKind::DiscordMessage,
        MessageCollectionBot::DiscordMessageDeleteMessage(_) => BotMessageKind::DiscordMessageDelete,
        MessageCollectionBot::DiscordMessageDeleteBulkMessage(_) => BotMessageKind::DiscordMessageDeleteBulk,
        MessageCollectionBot::DiscordMessageUpdateMessage(_) => BotMessageKind::DiscordMessageUpdate,
        MessageCollectionBot::ReactionAddMessage(_) => BotMessageKind::ReactionAdd,
        MessageCollectionBot::ReactionRemoveMessage(_) => BotMessageKind::ReactionRemove,
        MessageCollectionBot::ReactionRemoveAllMessage(_) => BotMessageKind::ReactionRemoveAll,
        MessageCollectionBot::ReactionRemoveEmojiMessage(_) => BotMessageKind::ReactionRemoveEmoji,
        MessageCollectionBot::PresenceUpdateMessage(_) => BotMessageKind::PresenceUpdate,
        MessageCollectionBot::BotReadyMessage(_) => BotMessageKind::BotReady,
        MessageCollectionBot::ResumeMessage(_) => BotMessageKind::Resume,
        MessageCollectionBot::ShardStageUpdateMessage(_) => BotMessageKind::ShardStageUpdate,
        MessageCollectionBot::TypingStartMessage(_) => BotMessageKind::TypingStart,
        MessageCollectionBot::UserUpdateMessage(_) => BotMessageKind::UserUpdate,
        MessageCollectionBot::VoiceServerUpdateMessage(_) => BotMessageKind::VoiceServerUpdate,
        MessageCollectionBot::VoiceStateUpdateMessage(_) => BotMessageKind::VoiceStateUpdate,
        MessageCollectionBot::VoiceChannelStatusUpdateMessage(_) => BotMessageKind::VoiceChannelStatusUpdate,
        MessageCollectionBot::WebhookUpdateMessage(_) => BotMessageKind::WebhookUpdate,
        MessageCollectionBot::InteractionCreateMessage(_) => BotMessageKind::InteractionCreate,
        MessageCollectionBot::IntegrationCreateMessage(_) => BotMessageKind::IntegrationCreate,
        MessageCollectionBot::IntegrationUpdateMessage(_) => BotMessageKind::IntegrationUpdate,
        MessageCollectionBot::StageInstanceCreateMessage(_) => BotMessageKind::StageInstanceCreate,
        MessageCollectionBot::StageInstanceUpdateMessage(_) => BotMessageKind::StageInstanceUpdate,
        MessageCollectionBot::StageInstanceDeleteMessage(_) => BotMessageKind::StageInstanceDelete,
        MessageCollectionBot::ThreadCreateMessage(_) => BotMessageKind::ThreadCreate,
        MessageCollectionBot::ThreadUpdateMessage(_) => BotMessageKind::ThreadUpdate,
        MessageCollectionBot::ThreadDeleteMessage(_) => BotMessageKind::ThreadDelete,
        MessageCollectionBot::ThreadListSyncMessage(_) => BotMessageKind::ThreadListSync,
        MessageCollectionBot::ThreadMemberUpdateMessage(_) => BotMessageKind::ThreadMemberUpdate,
        MessageCollectionBot::ThreadMembersUpdateMessage(_) => BotMessageKind::ThreadMembersUpdate,
        MessageCollectionBot::GuildScheduledEventCreateMessage(_) => BotMessageKind::GuildScheduledEventCreate,
        MessageCollectionBot::GuildScheduledEventUpdateMessage(_) => BotMessageKind::GuildScheduledEventUpdate,
        MessageCollectionBot::GuildScheduledEventDeleteMessage(_) => BotMessageKind::GuildScheduledEventDelete,
        MessageCollectionBot::GuildScheduledEventUserAddMessage(_) => BotMessageKind::GuildScheduledEventUserAdd,
        MessageCollectionBot::GuildScheduledEventUserRemoveMessage(_) => BotMessageKind::GuildScheduledEventUserRemove,
        MessageCollectionBot::EntitlementCreateMessage(_) => BotMessageKind::EntitlementCreate,
        MessageCollectionBot::EntitlementUpdateMessage(_) => BotMessageKind::EntitlementUpdate,
        MessageCollectionBot::EntitlementDeleteMessage(_) => BotMessageKind::EntitlementDelete,
        MessageCollectionBot::PollVoteAddMessage(_) => BotMessageKind::PollVoteAdd,
        MessageCollectionBot::PollVoteRemoveMessage(_) => BotMessageKind::PollVoteRemove,
        MessageCollectionBot::RateLimitMessage(_) => BotMessageKind::RateLimit,
    }
}

impl MessageCollectionBot {
    /// Packages the arguments of the `command_permissions_update` callback, losing and reordering
    /// nothing.
    pub fn command_permissions_update(ctx: Context, permission: CommandPermissions) -> (m: Self)
        ensures
            m == (MessageCollectionBot::CommandPermissionsUpdateMessage(CommandPermissionsUpdateMessage { ctx, permission })),
    {
        MessageCollectionBot::CommandPermissionsUpdateMessage(CommandPermissionsUpdateMessage { ctx, permission })
    }

    /// Packages the arguments of the `auto_moderation_rule_create` callback, losing and reordering
    /// nothing.
    pub fn auto_moderation_rule_create(ctx: Context, rule: Rule) -> (m: Self)
        ensures
            m == (MessageCollectionBot::AutoModerationRuleCreateMessage(AutoModerationRuleCreateMessage { ctx, rule })),
    {
        MessageCollectionBot::AutoModerationRuleCreateMessage(AutoModerationRuleCreateMessage { ctx, rule })
    }

    /// Packages the arguments of the `auto_moderation_rule_update` callback, losing and reordering
    /// nothing.
    pub fn auto_moderation_rule_update(ctx: Context, rule: Rule) -> (m: Self)
        ensures
            m == (MessageCollectionBot::AutoModerationRuleUpdateMessage(AutoModerationRuleUpdateMessage { ctx, rule })),
    {
        MessageCollectionBot::AutoModerationRuleUpdateMessage(AutoModerationRuleUpdateMessage { ctx, rule })
    }

    /// Packages the arguments of the `auto_moderation_rule_delete` callback, losing and reordering
    /// nothing.
    pub fn auto_moderation_rule_delete(ctx: Context, rule: Rule) -> (m: Self)
        ensures
            m == (MessageCollectionBot::AutoModerationRuleDeleteMessage(AutoModerationRuleDeleteMessage { ctx, rule })),
    {
        MessageCollectionBot::AutoModerationRuleDeleteMessage(AutoModerationRuleDeleteMessage { ctx, rule })
    }

    /// Packages the arguments of the `auto_moderation_action_execution` callback, losing and reordering
    /// nothing.
    pub fn auto_moderation_action_execution(ctx: Context, execution: ActionExecution) -> (m: Self)
        ensures
            m == (MessageCollectionBot::AutoModerationActionExecutionMessage(AutoModerationActionExecutionMessage { ctx, execution })),
    {
        MessageCollectionBot::AutoModerationActionExecutionMessage(AutoModerationActionExecutionMessage { ctx, execution })
    }

    /// Packages the arguments of the `cache_ready` callback, losing and reordering
    /// nothing.
    pub fn cache_ready(ctx: Context, guilds: Vec<GuildId>) -> (m: Self)
        ensures
            m == (MessageCollectionBot::CacheReadMessage(CacheReadMessage { ctx, guilds })),
    {
        MessageCollectionBot::CacheReadMessage(CacheReadMessage { ctx, guilds })
    }

    /// Packages the arguments of the `shards_ready` callback, losing and reordering
    /// nothing.
    pub fn shards_ready(ctx: Context, total_shards: u32) -> (m: Self)
        ensures
            m == (MessageCollectionBot::ShardsReadyMessage(ShardsReadyMessage { ctx, total_shards })),
    {
        MessageCollectionBot::ShardsReadyMessage(ShardsReadyMessage { ctx, total_shards })
    }

    /// Packages the arguments of the `channel_create` callback, losing and reordering
    /// nothing.
    pub fn channel_create(ctx: Context, channel: GuildChannel) -> (m: Self)
        ensures
            m == (MessageCollectionBot::ChannelCreateMessage(ChannelCreateMessage { ctx, channel })),
    {
        MessageCollectionBot::ChannelCreateMessage(ChannelCreateMessage { ctx, channel })
    }

    /// Packages the arguments of the `category_create` callback, losing and reordering
    /// nothing.
    pub fn category_create(ctx: Context, category: GuildChannel) -> (m: Self)
        ensures
            m == (MessageCollectionBot::CategoryCreateMessage(CategoryCreateMessage { ctx, category })),
    {
        MessageCollectionBot::CategoryCreateMessage(CategoryCreateMessage { ctx, category })
    }

    /// Packages the arguments of the `category_delete` callback, losing and reordering
    /// nothing.
    pub fn category_delete(ctx: Context, category: GuildChannel) -> (m: Self)
        ensures
            m == (MessageCollectionBot::CategoryDeleteMessage(CategoryDeleteMessage { ctx, category })),
    {
        MessageCollectionBot::CategoryDeleteMessage(CategoryDeleteMessage { ctx, category })
    }

    /// Packages the arguments of the `channel_delete` callback, losing and reordering
    /// nothing.
    pub fn channel_delete(ctx: Context, channel: GuildChannel, messages: Option<Vec<Message>>) -> (m: Self)
        ensures
            m == (MessageCollectionBot::ChannelDeleteMessage(ChannelDeleteMessage { ctx, channel, messages })),
    {
        MessageCollectionBot::ChannelDeleteMessage(ChannelDeleteMessage { ctx, channel, messages })
    }

    /// Packages the arguments of the `channel_pins_update` callback, losing and reordering
    /// nothing.
    pub fn channel_pins_update(ctx: Context, pin: ChannelPinsUpdateEvent) -> (m: Self)
        ensures
            m == (MessageCollectionBot::ChannelPinUpdateMessage(ChannelPinUpdateMessage { ctx, pin })),
    {
        MessageCollectionBot::ChannelPinUpdateMessage(ChannelPinUpdateMessage { ctx, pin })
    }

    /// Packages the arguments of the `channel_update` callback, losing and reordering
    /// nothing.
    pub fn channel_update(ctx: Context, old: Option<GuildChannel>, new: GuildChannel) -> (m: Self)
        ensures
            m == (MessageCollectionBot::ChannelUpdateMessage(ChannelUpdateMessage { ctx, old, new })),
    {
        MessageCollectionBot::ChannelUpdateMessage(ChannelUpdateMessage { ctx, old, new })
    }

    /// Packages the arguments of the `guild_audit_log_entry_create` callback, losing and reordering
    /// nothing.
    pub fn guild_audit_log_entry_create(ctx: Context, entry: AuditLogEntry, guild_id: GuildId) -> (m: Self)
        ensures
            m == (MessageCollectionBot::GuildAuditLogEntryCreateMessage(GuildAuditLogEntryCreateMessage { ctx, entry, guild_id })),
    {
        MessageCollectionBot::GuildAuditLogEntryCreateMessage(GuildAuditLogEntryCreateMessage { ctx, entry, guild_id })
    }

    /// Packages the arguments of the `guild_ban_addition` callback, losing and reordering
    /// nothing.
    pub fn guild_ban_addition(ctx: Context, guild_id: GuildId, banned_user: User) -> (m: Self)
        ensures
            m == (MessageCollectionBot::GuildBanAdditionMessage(GuildBanAdditionMessage { ctx, guild_id, banned_user })),
    {
        MessageCollectionBot::GuildBanAdditionMessage(GuildBanAdditionMessage { ctx, guild_id, banned_user })
    }

    /// Packages the arguments of the `guild_ban_removal` callback, losing and reordering
    /// nothing.
    pub fn guild_ban_removal(ctx: Context, guild_id: GuildId, unbanned_user: User) -> (m: Self)
        ensures
            m == (MessageCollectionBot::GuildBanRemovalMessage(GuildBanRemovalMessage { ctx, guild_id, unbanned_user })),
    {
        MessageCollectionBot::GuildBanRemovalMessage(GuildBanRemovalMessage { ctx, guild_id, unbanned_user })
    }

    /// Packages the arguments of the `guild_create` callback, losing and reordering
    /// nothing.
    pub fn guild_create(ctx: Context, guild: Guild, is_new: Option<bool>) -> (m: Self)
        ensures
            m == (MessageCollectionBot::GuildCreateMessage(GuildCreateMessage { ctx, guild, is_new })),
    {
        MessageCollectionBot::GuildCreateMessage(GuildCreateMessage { ctx, guild, is_new })
    }

    /// Packages the arguments of the `guild_delete` callback, losing and reordering
    /// nothing.
    pub fn guild_delete(ctx: Context, incomplete: UnavailableGuild, full: Option<Guild>) -> (m: Self)
        ensures
            m == (MessageCollectionBot::GuildDeleteMessage(GuildDeleteMessage { ctx, incomplete, full })),
    {
        MessageCollectionBot::GuildDeleteMessage(GuildDeleteMessage { ctx, incomplete, full })
    }

    /// Packages the arguments of the `guild_emojis_update` callback, losing and reordering
    /// nothing.
    pub fn guild_emojis_update(ctx: Context, guild_id: GuildId, current_state: HashMap<EmojiId, Emoji>) -> (m: Self)
        ensures
            m == (MessageCollectionBot::GuildEmojisUpdateMessage(GuildEmojisUpdateMessage { ctx, guild_id, current_state })),
    {
        MessageCollectionBot::GuildEmojisUpdateMessage(GuildEmojisUpdateMessage { ctx, guild_id, current_state })
    }

    /// Packages the arguments of the `guild_integrations_update` callback, losing and reordering
    /// nothing.
    pub fn guild_integrations_update(ctx: Context, guild_id: GuildId) -> (m: Self)
        ensures
            m == (MessageCollectionBot::GuildIntegrationsUpdateMessage(GuildIntegrationsUpdateMessage { ctx, guild_id })),
    {
        MessageCollectionBot::GuildIntegrationsUpdateMessage(GuildIntegrationsUpdateMessage { ctx, guild_id })
    }

    /// Packages the arguments of the `guild_member_addition` callback, losing and reordering
    /// nothing.
    pub fn guild_member_addition(ctx: Context, new_member: Member) -> (m: Self)
        ensures
            m == (MessageCollectionBot::GuildMemberAdditionMessage(GuildMemberAdditionMessage { ctx, new_member })),
    {
        MessageCollectionBot::GuildMemberAdditionMessage(GuildMemberAdditionMessage { ctx, new_member })
    }

    /// Packages the arguments of the `guild_member_removal` callback, losing and reordering
    /// nothing.
    pub fn guild_member_removal(ctx: Context, guild_id: GuildId, user: User, member_data_if_available: Option<Member>) -> (m: Self)
        ensures
            m == (MessageCollectionBot::GuildMemberRemovalMessage(GuildMemberRemovalMessage { ctx, guild_id, user, member_data_if_available })),
    {
        MessageCollectionBot::GuildMemberRemovalMessage(GuildMemberRemovalMessage { ctx, guild_id, user, member_data_if_available })
    }

    /// Packages the arguments of the `guild_member_update` callback, losing and reordering
    /// nothing.
    pub fn guild_member_update(ctx: Context, old_if_available: Option<Member>, new: Option<Member>, event: GuildMemberUpdateEvent) -> (m: Self)
        ensures
            m == (MessageCollectionBot::GuildMemberUpdateMessage(GuildMemberUpdateMessage { ctx, old_if_available, new, event })),
    {
        MessageCollectionBot::GuildMemberUpdateMessage(GuildMemberUpdateMessage { ctx, old_if_available, new, event })
    }

    /// Packages the arguments of the `guild_members_chunk` callback, losing and reordering
    /// nothing.
    pub fn guild_members_chunk(ctx: Context, chunk: GuildMembersChunkEvent) -> (m: Self)
        ensures
            m == (MessageCollectionBot::GuildMembersChunkMessage(GuildMembersChunkMessage { ctx, chunk })),
    {
        MessageCollectionBot::GuildMembersChunkMessage(GuildMembersChunkMessage { ctx, chunk })
    }

    /// Packages the arguments of the `guild_role_create` callback, losing and reordering
    /// nothing.
    pub fn guild_role_create(ctx: Context, new: Role) -> (m: Self)
        ensures
            m == (MessageCollectionBot::GuildRoleCreateMessage(GuildRoleCreateMessage { ctx, new })),
    {
        MessageCollectionBot::GuildRoleCreateMessage(GuildRoleCreateMessage { ctx, new })
    }

    /// Packages the arguments of the `guild_role_delete` callback, losing and reordering
    /// nothing.
    pub fn guild_role_delete(ctx: Context, guild_id: GuildId, removed_role_id: RoleId, removed_role_data_if_available: Option<Role>) -> (m: Self)
        ensures
            m == (MessageCollectionBot::GuildRoleDeleteMessage(GuildRoleDeleteMessage { ctx, guild_id, removed_role_id, removed_role_data_if_available })),
    {
        MessageCollectionBot::GuildRoleDeleteMessage(GuildRoleDeleteMessage { ctx, guild_id, removed_role_id, removed_role_data_if_available })
    }

    /// Packages the arguments of the `guild_role_update` callback, losing and reordering
    /// nothing.
    pub fn guild_role_update(ctx: Context, old_data_if_available: Option<Role>, new: Role) -> (m: Self)
        ensures
            m == (MessageCollectionBot::GuildRoleUpdateMessage(GuildRoleUpdateMessage { ctx, old_data_if_available, new })),
    {
        MessageCollectionBot::GuildRoleUpdateMessage(GuildRoleUpdateMessage { ctx, old_data_if_available, new })
    }

    /// Packages the arguments of the `guild_stickers_update` callback, losing and reordering
    /// nothing.
    pub fn guild_stickers_update(ctx: Context, guild_id: GuildId, current_state: HashMap<StickerId, Sticker>) -> (m: Self)
        ensures
            m == (MessageCollectionBot::GuildStickersUpdateMessage(GuildStickersUpdateMessage { ctx, guild_id, current_state })),
    {
        MessageCollectionBot::GuildStickersUpdateMessage(GuildStickersUpdateMessage { ctx, guild_id, current_state })
    }

    /// Packages the arguments of the `guild_update` callback, losing and reordering
    /// nothing.
    pub fn guild_update(ctx: Context, old_data_if_available: Option<Guild>, new_data: PartialGuild) -> (m: Self)
        ensures
            m == (MessageCollectionBot::GuildUpdateMessage(GuildUpdateMessage { ctx, old_data_if_available, new_data })),
    {
        MessageCollectionBot::GuildUpdateMessage(GuildUpdateMessage { ctx, old_data_if_available, new_data })
    }

    /// Packages the arguments of the `invite_create` callback, losing and reordering
    /// nothing.
    pub fn invite_create(ctx: Context, data: InviteCreateEvent) -> (m: Self)
        ensures
            m == (MessageCollectionBot::InviteCreateMessage(InviteCreateMessage { ctx, data })),
    {
        MessageCollectionBot::InviteCreateMessage(InviteCreateMessage { ctx, data })
    }

    /// Packages the arguments of the `invite_delete` callback, losing and reordering
    /// nothing.
    pub fn invite_delete(ctx: Context, data: InviteDeleteEvent) -> (m: Self)
        ensures
            m == (MessageCollectionBot::InviteDeleteMessage(InviteDeleteMessage { ctx, data })),
    {
        MessageCollectionBot::InviteDeleteMessage(InviteDeleteMessage { ctx, data })
    }

    /// Packages the arguments of the `message` callback, losing and reordering
    /// nothing.
    pub fn message(ctx: Context, new_message: Message) -> (m: Self)
        ensures
            m == (MessageCollectionBot::DiscordMessage(DiscordMessage { ctx, new_message })),
    {
        MessageCollectionBot::DiscordMessage(DiscordMessage { ctx, new_message })
    }

    /// Packages the arguments of the `message_delete` callback, losing and reordering
    /// nothing.
    pub fn message_delete(ctx: Context, channel_id: ChannelId, deleted_message_id: MessageId, guild_id: Option<GuildId>) -> (m: Self)
        ensures
            m == (MessageCollectionBot::DiscordMessageDeleteMessage(DiscordMessageDeleteMessage { ctx, channel_id, deleted_message_id, guild_id })),
    {
        MessageCollectionBot::DiscordMessageDeleteMessage(DiscordMessageDeleteMessage { ctx, channel_id, deleted_message_id, guild_id })
    }

    /// Packages the arguments of the `message_delete_bulk` callback, losing and reordering
    /// nothing.
    pub fn message_delete_bulk(ctx: Context, channel_id: ChannelId, multiple_deleted_messages_ids: Vec<MessageId>, guild_id: Option<GuildId>) -> (m: Self)
        ensures
            m == (MessageCollectionBot::DiscordMessageDeleteBulkMessage(DiscordMessageDeleteBulkMessage { ctx, channel_id, multiple_deleted_messages_ids, guild_id })),
    {
        MessageCollectionBot::DiscordMessageDeleteBulkMessage(DiscordMessageDeleteBulkMessage { ctx, channel_id, multiple_deleted_messages_ids, guild_id })
    }

    /// Packages the arguments of the `message_update` callback, losing and reordering
    /// nothing.
    pub fn message_update(ctx: Context, old_if_available: Option<Message>, new: Option<Message>, event: MessageUpdateEvent) -> (m: Self)
        ensures
            m == (MessageCollectionBot::DiscordMessageUpdateMessage(DiscordMessageUpdateMessage { ctx, old_if_available, new, event })),
    {
        MessageCollectionBot::DiscordMessageUpdateMessage(DiscordMessageUpdateMessage { ctx, old_if_available, new, event })
    }

    /// Packages the arguments of the `reaction_add` callback, losing and reordering
    /// nothing.
    pub fn reaction_add(ctx: Context, add_reaction: Reaction) -> (m: Self)
        ensures
            m == (MessageCollectionBot::ReactionAddMessage(ReactionAddMessage { ctx, add_reaction })),
    {
        MessageCollectionBot::ReactionAddMessage(ReactionAddMessage { ctx, add_reaction })
    }

    /// Packages the arguments of the `reaction_remove` callback, losing and reordering
    /// nothing.
    pub fn reaction_remove(ctx: Context, removed_reaction: Reaction) -> (m: Self)
        ensures
            m == (MessageCollectionBot::ReactionRemoveMessage(ReactionRemoveMessage { ctx, removed_reaction })),
    {
        MessageCollectionBot::ReactionRemoveMessage(ReactionRemoveMessage { ctx, removed_reaction })
    }

    /// Packages the arguments of the `reaction_remove_all` callback, losing and reordering
    /// nothing.
    pub fn reaction_remove_all(ctx: Context, channel_id: ChannelId, removed_from_message_id: MessageId) -> (m: Self)
        ensures
            m == (MessageCollectionBot::ReactionRemoveAllMessage(ReactionRemoveAllMessage { ctx, channel_id, removed_from_message_id })),
    {
        MessageCollectionBot::ReactionRemoveAllMessage(ReactionRemoveAllMessage { ctx, channel_id, removed_from_message_id })
    }

    /// Packages the arguments of the `reaction_remove_emoji` callback, losing and reordering
    /// nothing.
    pub fn reaction_remove_emoji(ctx: Context, removed_reactions: Reaction) -> (m: Self)
        ensures
            m == (MessageCollectionBot::ReactionRemoveEmojiMessage(ReactionRemoveEmojiMessage { ctx, removed_reactions })),
    {
        MessageCollectionBot::ReactionRemoveEmojiMessage(ReactionRemoveEmojiMessage { ctx, removed_reactions })
    }

    /// Packages the arguments of the `presence_update` callback, losing and reordering
    /// nothing.
    pub fn presence_update(ctx: Context, new_data: Presence) -> (m: Self)
        ensures
            m == (MessageCollectionBot::PresenceUpdateMessage(PresenceUpdateMessage { ctx, new_data })),
    {
        MessageCollectionBot::PresenceUpdateMessage(PresenceUpdateMessage { ctx, new_data })
    }

    /// Packages the arguments of the `ready` callback, losing and reordering
    /// nothing.
    pub fn ready(ctx: Context, data_about_bot: Ready) -> (m: Self)
        ensures
            m == (MessageCollectionBot::BotReadyMessage(BotReadyMessage { ctx, data_about_bot })),
    {
        MessageCollectionBot::BotReadyMessage(BotReadyMessage { ctx, data_about_bot })
    }

    /// Packages the arguments of the `resume` callback, losing and reordering
    /// nothing.
    pub fn resume(ctx: Context, event: ResumedEvent) -> (m: Self)
        ensures
            m == (MessageCollectionBot::ResumeMessage(ResumeMessage { ctx, event })),
    {
        MessageCollectionBot::ResumeMessage(ResumeMessage { ctx, event })
    }

    /// Packages the arguments of the `shard_stage_update` callback, losing and reordering
    /// nothing.
    pub fn shard_stage_update(ctx: Context, event: ShardStageUpdateEvent) -> (m: Self)
        ensures
            m == (MessageCollectionBot::ShardStageUpdateMessage(ShardStageUpdateMessage { ctx, event })),
    {
        MessageCollectionBot::ShardStageUpdateMessage(ShardStageUpdateMessage { ctx, event })
    }

    /// Packages the arguments of the `typing_start` callback, losing and reordering
    /// nothing.
    pub fn typing_start(ctx: Context, event: TypingStartEvent) -> (m: Self)
        ensures
            m == (MessageCollectionBot::TypingStartMessage(TypingStartMessage { ctx, event })),
    {
        MessageCollectionBot::TypingStartMessage(TypingStartMessage { ctx, event })
    }

    /// Packages the arguments of the `user_update` callback, losing and reordering
    /// nothing.
    pub fn user_update(ctx: Context, old_data: Option<CurrentUser>, new: CurrentUser) -> (m: Self)
        ensures
            m == (MessageCollectionBot::UserUpdateMessage(UserUpdateMessage { ctx, old_data, new })),
    {
        MessageCollectionBot::UserUpdateMessage(UserUpdateMessage { ctx, old_data, new })
    }

    /// Packages the arguments of the `voice_server_update` callback, losing and reordering
    /// nothing.
    pub fn voice_server_update(ctx: Context, event: VoiceServerUpdateEvent) -> (m: Self)
        ensures
            m == (MessageCollectionBot::VoiceServerUpdateMessage(VoiceServerUpdateMessage { ctx, event })),
    {
        MessageCollectionBot::VoiceServerUpdateMessage(VoiceServerUpdateMessage { ctx, event })
    }

    /// Packages the arguments of the `voice_state_update` callback, losing and reordering
    /// nothing.
    pub fn voice_state_update(ctx: Context, old: Option<VoiceState>, new: VoiceState) -> (m: Self)
        ensures
            m == (MessageCollectionBot::VoiceStateUpdateMessage(VoiceStateUpdateMessage { ctx, old, new })),
    {
        MessageCollectionBot::VoiceStateUpdateMessage(VoiceStateUpdateMessage { ctx, old, new })
    }

    /// Packages the arguments of the `voice_channel_status_update` callback, losing and reordering
    /// nothing.
    pub fn voice_channel_status_update(ctx: Context, old: Option<String>, status: Option<String>, id: ChannelId, guild_id: GuildId) -> (m: Self)
        ensures
            m == (MessageCollectionBot::VoiceChannelStatusUpdateMessage(VoiceChannelStatusUpdateMessage { ctx, old, status, id, guild_id })),
    {
        MessageCollectionBot::VoiceChannelStatusUpdateMessage(VoiceChannelStatusUpdateMessage { ctx, old, status, id, guild_id })
    }

    /// Packages the arguments of the `webhook_update` callback, losing and reordering
    /// nothing.
    pub fn webhook_update(ctx: Context, guild_id: GuildId, belongs_to_channel_id: ChannelId) -> (m: Self)
        ensures
            m == (MessageCollectionBot::WebhookUpdateMessage(WebhookUpdateMessage { ctx, guild_id, belongs_to_channel_id })),
    {
        MessageCollectionBot::WebhookUpdateMessage(WebhookUpdateMessage { ctx, guild_id, belongs_to_channel_id })
    }

    /// Packages the arguments of the `interaction_create` callback, losing and reordering
    /// nothing.
    pub fn interaction_create(ctx: Context, interaction: Interaction) -> (m: Self)
        ensures
            m == (MessageCollectionBot::InteractionCreateMessage(InteractionCreateMessage { ctx, interaction })),
    {
        MessageCollectionBot::InteractionCreateMessage(InteractionCreateMessage { ctx, interaction })
    }

    /// Packages the arguments of the `integration_create` callback, losing and reordering
    /// nothing.
    pub fn integration_create(ctx: Context, integration: Integration) -> (m: Self)
        ensures
            m == (MessageCollectionBot::IntegrationCreateMessage(IntegrationCreateMessage { ctx, integration })),
    {
        MessageCollectionBot::IntegrationCreateMessage(IntegrationCreateMessage { ctx, integration })
    }

    /// Packages the arguments of the `integration_update` callback, losing and reordering
    /// nothing.
    pub fn integration_update(ctx: Context, integration: Integration) -> (m: Self)
        ensures
            m == (MessageCollectionBot::IntegrationUpdateMessage(IntegrationUpdateMessage { ctx, integration })),
    {
        MessageCollectionBot::IntegrationUpdateMessage(IntegrationUpdateMessage { ctx, integration })
    }

    /// Packages the arguments of the `stage_instance_create` callback, losing and reordering
    /// nothing.
    pub fn stage_instance_create(ctx: Context, stage_instance: StageInstance) -> (m: Self)
        ensures
            m == (MessageCollectionBot::StageInstanceCreateMessage(StageInstanceCreateMessage { ctx, stage_instance })),
    {
        MessageCollectionBot::StageInstanceCreateMessage(StageInstanceCreateMessage { ctx, stage_instance })
    }

    /// Packages the arguments of the `stage_instance_update` callback, losing and reordering
    /// nothing.
    pub fn stage_instance_update(ctx: Context, stage_instance: StageInstance) -> (m: Self)
        ensures
            m == (MessageCollectionBot::StageInstanceUpdateMessage(StageInstanceUpdateMessage { ctx, stage_instance })),
    {
        MessageCollectionBot::StageInstanceUpdateMessage(StageInstanceUpdateMessage { ctx, stage_instance })
    }

    /// Packages the arguments of the `stage_instance_delete` callback, losing and reordering
    /// nothing.
    pub fn stage_instance_delete(ctx: Context, stage_instance: StageInstance) -> (m: Self)
        ensures
            m == (MessageCollectionBot::StageInstanceDeleteMessage(StageInstanceDeleteMessage { ctx, stage_instance })),
    {
        MessageCollectionBot::StageInstanceDeleteMessage(StageInstanceDeleteMessage { ctx, stage_instance })
    }

    /// Packages the arguments of the `thread_create` callback, losing and reordering
    /// nothing.
    pub fn thread_create(ctx: Context, thread: GuildChannel) -> (m: Self)
        ensures
            m == (MessageCollectionBot::ThreadCreateMessage(ThreadCreateMessage { ctx, thread })),
    {
        MessageCollectionBot::ThreadCreateMessage(ThreadCreateMessage { ctx, thread })
    }

    /// Packages the arguments of the `thread_update` callback, losing and reordering
    /// nothing.
    pub fn thread_update(ctx: Context, old: Option<GuildChannel>, new: GuildChannel) -> (m: Self)
        ensures
            m == (MessageCollectionBot::ThreadUpdateMessage(ThreadUpdateMessage { ctx, old, new })),
    {
        MessageCollectionBot::ThreadUpdateMessage(ThreadUpdateMessage { ctx, old, new })
    }

    /// Packages the arguments of the `thread_delete` callback, losing and reordering
    /// nothing.
    pub fn thread_delete(ctx: Context, thread: PartialGuildChannel, full_thread_data: Option<GuildChannel>) -> (m: Self)
        ensures
            m == (MessageCollectionBot::ThreadDeleteMessage(ThreadDeleteMessage { ctx, thread, full_thread_data })),
    {
        MessageCollectionBot::ThreadDeleteMessage(ThreadDeleteMessage { ctx, thread, full_thread_data })
    }

    /// Packages the arguments of the `thread_list_sync` callback, losing and reordering
    /// nothing.
    pub fn thread_list_sync(ctx: Context, thread_list_sync: ThreadListSyncEvent) -> (m: Self)
        ensures
            m == (MessageCollectionBot::ThreadListSyncMessage(ThreadListSyncMessage { ctx, thread_list_sync })),
    {
        MessageCollectionBot::ThreadListSyncMessage(ThreadListSyncMessage { ctx, thread_list_sync })
    }

    /// Packages the arguments of the `thread_member_update` callback, losing and reordering
    /// nothing.
    pub fn thread_member_update(ctx: Context, thread_member: ThreadMember) -> (m: Self)
        ensures
            m == (MessageCollectionBot::ThreadMemberUpdateMessage(ThreadMemberUpdateMessage { ctx, thread_member })),
    {
        MessageCollectionBot::ThreadMemberUpdateMessage(ThreadMemberUpdateMessage { ctx, thread_member })
    }

    /// Packages the arguments of the `thread_members_update` callback, losing and reordering
    /// nothing.
    pub fn thread_members_update(ctx: Context, thread_members_update: ThreadMembersUpdateEvent) -> (m: Self)
        ensures
            m == (MessageCollectionBot::ThreadMembersUpdateMessage(ThreadMembersUpdateMessage { ctx, thread_members_update })),
    {
        MessageCollectionBot::ThreadMembersUpdateMessage(ThreadMembersUpdateMessage { ctx, thread_members_update })
    }

    /// Packages the arguments of the `guild_scheduled_event_create` callback, losing and reordering
    /// nothing.
    pub fn guild_scheduled_event_create(ctx: Context, event: ScheduledEvent) -> (m: Self)
        ensures
            m == (MessageCollectionBot::GuildScheduledEventCreateMessage(GuildScheduledEventCreateMessage { ctx, event })),
    {
        MessageCollectionBot::GuildScheduledEventCreateMessage(GuildScheduledEventCreateMessage { ctx, event })
    }

    /// Packages the arguments of the `guild_scheduled_event_update` callback, losing and reordering
    /// nothing.
    pub fn guild_scheduled_event_update(ctx: Context, event: ScheduledEvent) -> (m: Self)
        ensures
            m == (MessageCollectionBot::GuildScheduledEventUpdateMessage(GuildScheduledEventUpdateMessage { ctx, event })),
    {
        MessageCollectionBot::GuildScheduledEventUpdateMessage(GuildScheduledEventUpdateMessage { ctx, event })
    }

    /// Packages the arguments of the `guild_scheduled_event_delete` callback, losing and reordering
    /// nothing.
    pub fn guild_scheduled_event_delete(ctx: Context, event: ScheduledEvent) -> (m: Self)
        ensures
            m == (MessageCollectionBot::GuildScheduledEventDeleteMessage(GuildScheduledEventDeleteMessage { ctx, event })),
    {
        MessageCollectionBot::GuildScheduledEventDeleteMessage(GuildScheduledEventDeleteMessage { ctx, event })
    }

    /// Packages the arguments of the `guild_scheduled_event_user_add` callback, losing and reordering
    /// nothing.
    pub fn guild_scheduled_event_user_add(ctx: Context, subscribed: GuildScheduledEventUserAddEvent) -> (m: Self)
        ensures
            m == (MessageCollectionBot::GuildScheduledEventUserAddMessage(GuildScheduledEventUserAddMessage { ctx, subscribed })),
    {
        MessageCollectionBot::GuildScheduledEventUserAddMessage(GuildScheduledEventUserAddMessage { ctx, subscribed })
    }

    /// Packages the arguments of the `guild_scheduled_event_user_remove` callback, losing and reordering
    /// nothing.
    pub fn guild_scheduled_event_user_remove(ctx: Context, unsubscribed: GuildScheduledEventUserRemoveEvent) -> (m: Self)
        ensures
            m == (MessageCollectionBot::GuildScheduledEventUserRemoveMessage(GuildScheduledEventUserRemoveMessage { ctx, unsubscribed })),
    {
        MessageCollectionBot::GuildScheduledEventUserRemoveMessage(GuildScheduledEventUserRemoveMessage { ctx, unsubscribed })
    }

    /// Packages the arguments of the `entitlement_create` callback, losing and reordering
    /// nothing.
    pub fn entitlement_create(ctx: Context, entitlement: Entitlement) -> (m: Self)
        ensures
            m == (MessageCollectionBot::EntitlementCreateMessage(EntitlementCreateMessage { ctx, entitlement })),
    {
        MessageCollectionBot::EntitlementCreateMessage(EntitlementCreateMessage { ctx, entitlement })
    }

    /// Packages the arguments of the `entitlement_update` callback, losing and reordering
    /// nothing.
    pub fn entitlement_update(ctx: Context, entitlement: Entitlement) -> (m: Self)
        ensures
            m == (MessageCollectionBot::EntitlementUpdateMessage(EntitlementUpdateMessage { ctx, entitlement })),
    {
        MessageCollectionBot::EntitlementUpdateMessage(EntitlementUpdateMessage { ctx, entitlement })
    }

    /// Packages the arguments of the `entitlement_delete` callback, losing and reordering
    /// nothing.
    pub fn entitlement_delete(ctx: Context, entitlement: Entitlement) -> (m: Self)
        ensures
            m == (MessageCollectionBot::EntitlementDeleteMessage(EntitlementDeleteMessage { ctx, entitlement })),
    {
        MessageCollectionBot::EntitlementDeleteMessage(EntitlementDeleteMessage { ctx, entitlement })
    }

    /// Packages the arguments of the `poll_vote_add` callback, losing and reordering
    /// nothing.
    pub fn poll_vote_add(ctx: Context, event: MessagePollVoteAddEvent) -> (m: Self)
        ensures
            m == (MessageCollectionBot::PollVoteAddMessage(PollVoteAddMessage { ctx, event })),
    {
        MessageCollectionBot::PollVoteAddMessage(PollVoteAddMessage { ctx, event })
    }

    /// Packages the arguments of the `poll_vote_remove` callback, losing and reordering
    /// nothing.
    pub fn poll_vote_remove(ctx: Context, event: MessagePollVoteRemoveEvent) -> (m: Self)
        ensures
            m == (MessageCollectionBot::PollVoteRemoveMessage(PollVoteRemoveMessage { ctx, event })),
    {
        MessageCollectionBot::PollVoteRemoveMessage(PollVoteRemoveMessage { ctx, event })
    }

    /// Packages the arguments of the `ratelimit` callback, losing and reordering
    /// nothing.
    pub fn ratelimit(data: RatelimitInfo) -> (m: Self)
        ensures
            m == (MessageCollectionBot::RateLimitMessage(RateLimitMessage { data })),
    {
        MessageCollectionBot::RateLimitMessage(RateLimitMessage { data })
    }

    /// Reads the tag that the drain system dispatches on.
    pub fn kind(&self) -> (k: BotMessageKind)
        ensures
            k == bot_message_kind(self),
    {
        match self {
            MessageCollectionBot::CommandPermissionsUpdateMessage(_) => BotMessageKind::CommandPermissionsUpdate,
            MessageCollectionBot::AutoModerationRuleCreateMessage(_) => BotMessageKind::AutoModerationRuleCreate,
            MessageCollectionBot::AutoModerationRuleUpdateMessage(_) => BotMessageKind::AutoModerationRuleUpdate,
            MessageCollectionBot::AutoModerationRuleDeleteMessage(_) => BotMessageKind::AutoModerationRuleDelete,
            MessageCollectionBot::AutoModerationActionExecutionMessage(_) => BotMessageKind::AutoModerationActionExecution,
            MessageCollectionBot::CacheReadMessage(_) => BotMessageKind::CacheRead,
            MessageCollectionBot::ShardsReadyMessage(_) => BotMessageKind::ShardsReady,
            MessageCollectionBot::ChannelCreateMessage(_) => BotMessageKind::ChannelCreate,
            MessageCollectionBot::CategoryCreateMessage(_) => BotMessageKind::CategoryCreate,
            MessageCollectionBot::CategoryDeleteMessage(_) => BotMessageKind::CategoryDelete,
            MessageCollectionBot::ChannelDeleteMessage(_) => BotMessageKind::ChannelDelete,
            MessageCollectionBot::ChannelPinUpdateMessage(_) => BotMessageKind::ChannelPinUpdate,
            MessageCollectionBot::ChannelUpdateMessage(_) => BotMessageKind::ChannelUpdate,
            MessageCollectionBot::GuildAuditLogEntryCreateMessage(_) => BotMessageKind::GuildAuditLogEntryCreate,
            MessageCollectionBot::GuildBanAdditionMessage(_) => BotMessageKind::GuildBanAddition,
            MessageCollectionBot::GuildBanRemovalMessage(_) => BotMessageKind::GuildBanRemoval,
            MessageCollectionBot::GuildCreateMessage(_) => BotMessageKind::GuildCreate,
            MessageCollectionBot::GuildDeleteMessage(_) => BotMessageKind::GuildDelete,
            MessageCollectionBot::GuildEmojisUpdateMessage(_) => BotMessageKind::GuildEmojisUpdate,
            MessageCollectionBot::GuildIntegrationsUpdateMessage(_) => BotMessageKind::GuildIntegrationsUpdate,
            MessageCollectionBot::GuildMemberAdditionMessage(_) => BotMessageKind::GuildMemberAddition,
            MessageCollectionBot::GuildMemberRemovalMessage(_) => BotMessageKind::GuildMemberRemoval,
            MessageCollectionBot::GuildMemberUpdateMessage(_) => BotMessageKind::GuildMemberUpdate,
            MessageCollectionBot::GuildMembersChunkMessage(_) => BotMessageKind::GuildMembersChunk,
            MessageCollectionBot::GuildRoleCreateMessage(_) => BotMessageKind::GuildRoleCreate,
            MessageCollectionBot::GuildRoleDeleteMessage(_) => BotMessageKind::GuildRoleDelete,
            MessageCollectionBot::GuildRoleUpdateMessage(_) => BotMessageKind::GuildRoleUpdate,
            MessageCollectionBot::GuildStickersUpdateMessage(_) => BotMessageKind::GuildStickersUpdate,
            MessageCollectionBot::GuildUpdateMessage(_) => BotMessageKind::GuildUpdate,
            MessageCollectionBot::InviteCreateMessage(_) => BotMessageKind::InviteCreate,
            MessageCollectionBot::InviteDeleteMessage(_) => BotMessageKind::InviteDelete,
            MessageCollectionBot::DiscordMessage(_) => BotMessageKind::DiscordMessage,
            MessageCollectionBot::DiscordMessageDeleteMessage(_) => BotMessageKind::DiscordMessageDelete,
            MessageCollectionBot::DiscordMessageDeleteBulkMessage(_) => BotMessageKind::DiscordMessageDeleteBulk,
            MessageCollectionBot::DiscordMessageUpdateMessage(_) => BotMessageKind::DiscordMessageUpdate,
            MessageCollectionBot::ReactionAddMessage(_) => BotMessageKind::ReactionAdd,
            MessageCollectionBot::ReactionRemoveMessage(_) => BotMessageKind::ReactionRemove,
            MessageCollectionBot::ReactionRemoveAllMessage(_) => BotMessageKind::ReactionRemoveAll,
            MessageCollectionBot::ReactionRemoveEmojiMessage(_) => BotMessageKind::ReactionRemoveEmoji,
            MessageCollectionBot::PresenceUpdateMessage(_) => BotMessageKind::PresenceUpdate,
            MessageCollectionBot::BotReadyMessage(_) => BotMessageKind::BotReady,
            MessageCollectionBot::ResumeMessage(_) => BotMessageKind::Resume,
            MessageCollectionBot::ShardStageUpdateMessage(_) => BotMessageKind::ShardStageUpdate,
            MessageCollectionBot::TypingStartMessage(_) => BotMessageKind::TypingStart,
            MessageCollectionBot::UserUpdateMessage(_) => BotMessageKind::UserUpdate,
            MessageCollectionBot::VoiceServerUpdateMessage(_) => BotMessageKind::VoiceServerUpdate,
            MessageCollectionBot::VoiceStateUpdateMessage(_) => BotMessageKind::VoiceStateUpdate,
            MessageCollectionBot::VoiceChannelStatusUpdateMessage(_) => BotMessageKind::VoiceChannelStatusUpdate,
            MessageCollectionBot::WebhookUpdateMessage(_) => BotMessageKind::WebhookUpdate,
            MessageCollectionBot::InteractionCreateMessage(_) => BotMessageKind::InteractionCreate,
            MessageCollectionBot::IntegrationCreateMessage(_) => BotMessageKind::IntegrationCreate,
            MessageCollectionBot::IntegrationUpdateMessage(_) => BotMessageKind::IntegrationUpdate,
            MessageCollectionBot::StageInstanceCreateMessage(_) => BotMessageKind::StageInstanceCreate,
            MessageCollectionBot::StageInstanceUpdateMessage(_) => BotMessageKind::StageInstanceUpdate,
            MessageCollectionBot::StageInstanceDeleteMessage(_) => BotMessageKind::StageInstanceDelete,
            MessageCollectionBot::ThreadCreateMessage(_) => BotMessageKind::ThreadCreate,
            MessageCollectionBot::ThreadUpdateMessage(_) => BotMessageKind::ThreadUpdate,
            MessageCollectionBot::ThreadDeleteMessage(_) => BotMessageKind::ThreadDelete,
            MessageCollectionBot::ThreadListSyncMessage(_) => BotMessageKind::ThreadListSync,
            MessageCollectionBot::ThreadMemberUpdateMessage(_) => BotMessageKind::ThreadMemberUpdate,
            MessageCollectionBot::ThreadMembersUpdateMessage(_) => BotMessageKind::ThreadMembersUpdate,
            MessageCollectionBot::GuildScheduledEventCreateMessage(_) => BotMessageKind::GuildScheduledEventCreate,
            MessageCollectionBot::GuildScheduledEventUpdateMessage(_) => BotMessageKind::GuildScheduledEventUpdate,
            MessageCollectionBot::GuildScheduledEventDeleteMessage(_) => BotMessageKind::GuildScheduledEventDelete,
            MessageCollectionBot::GuildScheduledEventUserAddMessage(_) => BotMessageKind::GuildScheduledEventUserAdd,
            MessageCollectionBot::GuildScheduledEventUserRemoveMessage(_) => BotMessageKind::GuildScheduledEventUserRemove,
            MessageCollectionBot::EntitlementCreateMessage(_) => BotMessageKind::EntitlementCreate,
            MessageCollectionBot::EntitlementUpdateMessage(_) => BotMessageKind::EntitlementUpdate,
            MessageCollectionBot::EntitlementDeleteMessage(_) => BotMessageKind::EntitlementDelete,
            MessageCollectionBot::PollVoteAddMessage(_) => BotMessageKind::PollVoteAdd,
            MessageCollectionBot::PollVoteRemoveMessage(_) => BotMessageKind::PollVoteRemove,
            MessageCollectionBot::RateLimitMessage(_) => BotMessageKind::RateLimit,
        }
    }
}

/// Each payload case is republished as exactly one message type, and no two
/// cases share one: a payload carries a given tag exactly when it is the
/// matching case of the union.
pub proof fn lemma_bot_kind_identifies_case(m: &MessageCollectionBot)
    ensures
        (bot_message_kind(m) == BotMessageKind::CommandPermissionsUpdate) <==> m is CommandPermissionsUpdateMessage,
        (bot_message_kind(m) == BotMessageKind::AutoModerationRuleCreate) <==> m is AutoModerationRuleCreateMessage,
        (bot_message_kind(m) == BotMessageKind::AutoModerationRuleUpdate) <==> m is AutoModerationRuleUpdateMessage,
        (bot_message_kind(m) == BotMessageKind::AutoModerationRuleDelete) <==> m is AutoModerationRuleDeleteMessage,
        (bot_message_kind(m) == BotMessageKind::AutoModerationActionExecution) <==> m is AutoModerationActionExecutionMessage,
        (bot_message_kind(m) == BotMessageKind::CacheRead) <==> m is CacheReadMessage,
        (bot_message_kind(m) == BotMessageKind::ShardsReady) <==> m is ShardsReadyMessage,
        (bot_message_kind(m) == BotMessageKind::ChannelCreate) <==> m is ChannelCreateMessage,
        (bot_message_kind(m) == BotMessageKind::CategoryCreate) <==> m is CategoryCreateMessage,
        (bot_message_kind(m) == BotMessageKind::CategoryDelete) <==> m is CategoryDeleteMessage,
        (bot_message_kind(m) == BotMessageKind::ChannelDelete) <==> m is ChannelDeleteMessage,
        (bot_message_kind(m) == BotMessageKind::ChannelPinUpdate) <==> m is ChannelPinUpdateMessage,
        (bot_message_kind(m) == BotMessageKind::ChannelUpdate) <==> m is ChannelUpdateMessage,
        (bot_message_kind(m) == BotMessageKind::GuildAuditLogEntryCreate) <==> m is GuildAuditLogEntryCreateMessage,
        (bot_message_kind(m) == BotMessageKind::GuildBanAddition) <==> m is GuildBanAdditionMessage,
        (bot_message_kind(m) == BotMessageKind::GuildBanRemoval) <==> m is GuildBanRemovalMessage,
        (bot_message_kind(m) == BotMessageKind::GuildCreate) <==> m is GuildCreateMessage,
        (bot_message_kind(m) == BotMessageKind::GuildDelete) <==> m is GuildDeleteMessage,
        (bot_message_kind(m) == BotMessageKind::GuildEmojisUpdate) <==> m is GuildEmojisUpdateMessage,
        (bot_message_kind(m) == BotMessageKind::GuildIntegrationsUpdate) <==> m is GuildIntegrationsUpdateMessage,
        (bot_message_kind(m) == BotMessageKind::GuildMemberAddition) <==> m is GuildMemberAdditionMessage,
        (bot_message_kind(m) == BotMessageKind::GuildMemberRemoval) <==> m is GuildMemberRemovalMessage,
        (bot_message_kind(m) == BotMessageKind::GuildMemberUpdate) <==> m is GuildMemberUpdateMessage,
        (bot_message_kind(m) == BotMessageKind::GuildMembersChunk) <==> m is GuildMembersChunkMessage,
        (bot_message_kind(m) == BotMessageKind::GuildRoleCreate) <==> m is GuildRoleCreateMessage,
        (bot_message_kind(m) == BotMessageKind::GuildRoleDelete) <==> m is GuildRoleDeleteMessage,
        (bot_message_kind(m) == BotMessageKind::GuildRoleUpdate) <==> m is GuildRoleUpdateMessage,
        (bot_message_kind(m) == BotMessageKind::GuildStickersUpdate) <==> m is GuildStickersUpdateMessage,
        (bot_message_kind(m) == BotMessageKind::GuildUpdate) <==> m is GuildUpdateMessage,
        (bot_message_kind(m) == BotMessageKind::InviteCreate) <==> m is InviteCreateMessage,
        (bot_message_kind(m) == BotMessageKind::InviteDelete) <==> m is InviteDeleteMessage,
        (bot_message_kind(m) == BotMessageKind::DiscordMessage) <==> m is DiscordMessage,
        (bot_message_kind(m) == BotMessageKind::DiscordMessageDelete) <==> m is DiscordMessageDeleteMessage,
        (bot_message_kind(m) == BotMessageKind::DiscordMessageDeleteBulk) <==> m is DiscordMessageDeleteBulkMessage,
        (bot_message_kind(m) == BotMessageKind::DiscordMessageUpdate) <==> m is DiscordMessageUpdateMessage,
        (bot_message_kind(m) == BotMessageKind::ReactionAdd) <==> m is ReactionAddMessage,
        (bot_message_kind(m) == BotMessageKind::ReactionRemove) <==> m is ReactionRemoveMessage,
        (bot_message_kind(m) == BotMessageKind::ReactionRemoveAll) <==> m is ReactionRemoveAllMessage,
        (bot_message_kind(m) == BotMessageKind::ReactionRemoveEmoji) <==> m is ReactionRemoveEmojiMessage,
        (bot_message_kind(m) == BotMessageKind::PresenceUpdate) <==> m is PresenceUpdateMessage,
        (bot_message_kind(m) == BotMessageKind::BotReady) <==> m is BotReadyMessage,
        (bot_message_kind(m) == BotMessageKind::Resume) <==> m is ResumeMessage,
        (bot_message_kind(m) == BotMessageKind::ShardStageUpdate) <==> m is ShardStageUpdateMessage,
        (bot_message_kind(m) == BotMessageKind::TypingStart) <==> m is TypingStartMessage,
        (bot_message_kind(m) == BotMessageKind::UserUpdate) <==> m is UserUpdateMessage,
        (bot_message_kind(m) == BotMessageKind::VoiceServerUpdate) <==> m is VoiceServerUpdateMessage,
        (bot_message_kind(m) == BotMessageKind::VoiceStateUpdate) <==> m is VoiceStateUpdateMessage,
        (bot_message_kind(m) == BotMessageKind::VoiceChannelStatusUpdate) <==> m is VoiceChannelStatusUpdateMessage,
        (bot_message_kind(m) == BotMessageKind::WebhookUpdate) <==> m is WebhookUpdateMessage,
        (bot_message_kind(m) == BotMessageKind::InteractionCreate) <==> m is InteractionCreateMessage,
        (bot_message_kind(m) == BotMessageKind::IntegrationCreate) <==> m is IntegrationCreateMessage,
        (bot_message_kind(m) == BotMessageKind::IntegrationUpdate) <==> m is IntegrationUpdateMessage,
        (bot_message_kind(m) == BotMessageKind::StageInstanceCreate) <==> m is StageInstanceCreateMessage,
        (bot_message_kind(m) == BotMessageKind::StageInstanceUpdate) <==> m is StageInstanceUpdateMessage,
        (bot_message_kind(m) == BotMessageKind::StageInstanceDelete) <==> m is StageInstanceDeleteMessage,
        (bot_message_kind(m) == BotMessageKind::ThreadCreate) <==> m is ThreadCreateMessage,
        (bot_message_kind(m) == BotMessageKind::ThreadUpdate) <==> m is ThreadUpdateMessage,
        (bot_message_kind(m) == BotMessageKind::ThreadDelete) <==> m is ThreadDeleteMessage,
        (bot_message_kind(m) == BotMessageKind::ThreadListSync) <==> m is ThreadListSyncMessage,
        (bot_message_kind(m) == BotMessageKind::ThreadMemberUpdate) <==> m is ThreadMemberUpdateMessage,
        (bot_message_kind(m) == BotMessageKind::ThreadMembersUpdate) <==> m is ThreadMembersUpdateMessage,
        (bot_message_kind(m) == BotMessageKind::GuildScheduledEventCreate) <==> m is GuildScheduledEventCreateMessage,
        (bot_message_kind(m) == BotMessageKind::GuildScheduledEventUpdate) <==> m is GuildScheduledEventUpdateMessage,
        (bot_message_kind(m) == BotMessageKind::GuildScheduledEventDelete) <==> m is GuildScheduledEventDeleteMessage,
        (bot_message_kind(m) == BotMessageKind::GuildScheduledEventUserAdd) <==> m is GuildScheduledEventUserAddMessage,
        (bot_message_kind(m) == BotMessageKind::GuildScheduledEventUserRemove) <==> m is GuildScheduledEventUserRemoveMessage,
        (bot_message_kind(m) == BotMessageKind::EntitlementCreate) <==> m is EntitlementCreateMessage,
        (bot_message_kind(m) == BotMessageKind::EntitlementUpdate) <==> m is EntitlementUpdateMessage,
        (bot_message_kind(m) == BotMessageKind::EntitlementDelete) <==> m is EntitlementDeleteMessage,
        (bot_message_kind(m) == BotMessageKind::PollVoteAdd) <==> m is PollVoteAddMessage,
        (bot_message_kind(m) == BotMessageKind::PollVoteRemove) <==> m is PollVoteRemoveMessage,
        (bot_message_kind(m) == BotMessageKind::RateLimit) <==> m is RateLimitMessage,
{
}

} // verus!
