use vstd::prelude::*;
use crate::json::{JsonMap, JsonValue};
use crate::model::{AttachmentType, UserPagination};

verus! {

/// A REST request against the Discord API: which endpoint, with which
/// path parameters, query parameters and body. Ids are given by their
/// numeric value. Performing a request is left to the HTTP client.
#[derive(Debug, PartialEq)]
pub enum Request {
    GetAutomodRules { guild_id: u64 },
    GetAutomodRule { guild_id: u64, rule_id: u64 },
    CreateAutomodRule { guild_id: u64, map: JsonMap },
    EditAutomodRule { guild_id: u64, rule_id: u64, map: JsonMap },
    DeleteAutomodRule { guild_id: u64, rule_id: u64 },
    AddGuildMember { guild_id: u64, user_id: u64, map: JsonMap },
    BanUser { guild_id: u64, user_id: u64, delete_message_days: u8, reason: String },
    GetBans { guild_id: u64 },
    GetAuditLogs {
        guild_id: u64,
        action_type: Option<u8>,
        user_id: Option<u64>,
        before: Option<u64>,
        limit: Option<u8>,
    },
    GetChannels { guild_id: u64 },
    CreateChannel { guild_id: u64, map: JsonMap },
    CreateEmoji { guild_id: u64, map: JsonMap },
    CreateGuildIntegration { guild_id: u64, integration_id: u64, map: JsonMap },
    CreateRole { guild_id: u64, map: JsonMap },
    CreateScheduledEvent { guild_id: u64, map: JsonMap },
    CreateSticker { guild_id: u64, map: JsonMap, file: AttachmentType },
    DeleteGuild { guild_id: u64 },
    DeleteEmoji { guild_id: u64, emoji_id: u64 },
    DeleteGuildIntegration { guild_id: u64, integration_id: u64 },
    DeleteRole { guild_id: u64, role_id: u64 },
    DeleteScheduledEvent { guild_id: u64, event_id: u64 },
    DeleteSticker { guild_id: u64, sticker_id: u64 },
    EditGuild { guild_id: u64, map: JsonMap },
    EditEmoji { guild_id: u64, emoji_id: u64, map: JsonMap },
    EditMember { guild_id: u64, user_id: u64, map: JsonMap },
    EditNickname { guild_id: u64, nickname: Option<String> },
    EditRole { guild_id: u64, role_id: u64, map: JsonMap },
    EditScheduledEvent { guild_id: u64, event_id: u64, map: JsonMap },
    EditSticker { guild_id: u64, sticker_id: u64, map: JsonMap },
    EditRolePosition { guild_id: u64, role_id: u64, position: u64 },
    EditGuildWelcomeScreen { guild_id: u64, value: JsonValue },
    EditGuildWidget { guild_id: u64, value: JsonValue },
    GetGuildRoles { guild_id: u64 },
    GetGuild { guild_id: u64 },
    GetGuildWithCounts { guild_id: u64 },
    GetEmojis { guild_id: u64 },
    GetEmoji { guild_id: u64, emoji_id: u64 },
    GetGuildStickers { guild_id: u64 },
    GetGuildSticker { guild_id: u64, sticker_id: u64 },
    GetGuildIntegrations { guild_id: u64 },
    GetGuildInvites { guild_id: u64 },
    KickMember { guild_id: u64, user_id: u64 },
    KickMemberWithReason { guild_id: u64, user_id: u64, reason: String },
    LeaveGuild { guild_id: u64 },
    GetMember { guild_id: u64, user_id: u64 },
    GetGuildMembers { guild_id: u64, limit: Option<u64>, after: Option<u64> },
    GetGuildPruneCount { guild_id: u64, map: JsonMap },
    EditGuildChannelPositions { guild_id: u64, value: JsonValue },
    SearchGuildMembers { guild_id: u64, query: String, limit: Option<u64> },
    GetScheduledEvent { guild_id: u64, event_id: u64, with_user_count: bool },
    GetScheduledEvents { guild_id: u64, with_user_count: bool },
    GetScheduledEventUsers {
        guild_id: u64,
        event_id: u64,
        limit: Option<u64>,
        target: Option<UserPagination>,
        with_member: Option<bool>,
    },
    StartIntegrationSync { guild_id: u64, integration_id: u64 },
    StartGuildPrune { guild_id: u64, days: u64 },
    RemoveBan { guild_id: u64, user_id: u64 },
    GetGuildVanityUrl { guild_id: u64 },
    GetGuildWebhooks { guild_id: u64 },
    CreateGuildApplicationCommand { guild_id: u64, value: JsonValue },
    CreateGuildApplicationCommands { guild_id: u64, value: JsonValue },
    EditGuildApplicationCommandPermissions { guild_id: u64, command_id: u64, value: JsonValue },
    EditGuildApplicationCommandsPermissions { guild_id: u64, value: JsonValue },
    GetGuildApplicationCommands { guild_id: u64 },
    GetGuildApplicationCommand { guild_id: u64, command_id: u64 },
    EditGuildApplicationCommand { guild_id: u64, command_id: u64, value: JsonValue },
    DeleteGuildApplicationCommand { guild_id: u64, command_id: u64 },
    GetGuildApplicationCommandsPermissions { guild_id: u64 },
    GetGuildApplicationCommandPermissions { guild_id: u64, command_id: u64 },
    GetGuildWelcomeScreen { guild_id: u64 },
    GetGuildPreview { guild_id: u64 },
    GetGuildWidget { guild_id: u64 },
    GetGuildActiveThreads { guild_id: u64 },
}

} // verus!
