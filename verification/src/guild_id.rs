use vstd::prelude::*;
use crate::decimal::{decimal, to_decimal};
use crate::id::{
    entry_id_value, user_id_value, AuditLogEntryId, ChannelId, CommandId, EmojiId, GuildId,
    IntegrationId, RoleId, RuleId, ScheduledEventId, StickerId, UserId,
};
use crate::json::{
    entry, find_key, first_key_index, is_json_str, json_get, json_str,
    lemma_first_key_index, lemma_first_key_index_none, spec_as_u64, JsonMap, JsonValue,
};
use crate::model::{AttachmentType, Error, ModelError, Role, UserPagination};
use crate::request::Request;

verus! {

/// The longest reason, in characters, that a ban may carry.
pub const MAX_BAN_REASON_LENGTH: u32 = 512;

/// The most members that one member list request may ask for.
pub const MEMBER_FETCH_LIMIT: u64 = 1000;

/// The most days' worth of messages that a ban may delete.
pub const MAX_DELETE_MESSAGE_DAYS: u8 = 7;

impl GuildId {
    /// Gets all auto moderation rules of this guild.
    pub fn automod_rules(self) -> (r: Request)
        ensures
            r == (Request::GetAutomodRules { guild_id: self.0 }),
    {
        Request::GetAutomodRules { guild_id: self.0 }
    }

    /// Gets an auto moderation rule of this guild by its id.
    pub fn automod_rule(self, rule_id: RuleId) -> (r: Request)
        ensures
            r == (Request::GetAutomodRule { guild_id: self.0, rule_id: rule_id.0 }),
    {
        Request::GetAutomodRule { guild_id: self.0, rule_id: rule_id.0 }
    }

    /// Creates an auto moderation rule with the fields of `map`.
    pub fn create_automod_rule(self, map: JsonMap) -> (r: Request)
        ensures
            r == (Request::CreateAutomodRule { guild_id: self.0, map }),
    {
        Request::CreateAutomodRule { guild_id: self.0, map }
    }

    /// Edits an auto moderation rule, setting the fields of `map`.
    pub fn edit_automod_rule(self, rule_id: RuleId, map: JsonMap) -> (r: Request)
        ensures
            r == (Request::EditAutomodRule { guild_id: self.0, rule_id: rule_id.0, map }),
    {
        Request::EditAutomodRule { guild_id: self.0, rule_id: rule_id.0, map }
    }

    /// Deletes an auto moderation rule.
    pub fn delete_automod_rule(self, rule_id: RuleId) -> (r: Request)
        ensures
            r == (Request::DeleteAutomodRule { guild_id: self.0, rule_id: rule_id.0 }),
    {
        Request::DeleteAutomodRule { guild_id: self.0, rule_id: rule_id.0 }
    }

    /// Adds a user to this guild with the fields of `map` (among them the
    /// user's OAuth2 access token).
    pub fn add_member(self, user_id: UserId, map: JsonMap) -> (r: Request)
        ensures
            r == (Request::AddGuildMember { guild_id: self.0, user_id: user_id.0, map }),
    {
        Request::AddGuildMember { guild_id: self.0, user_id: user_id.0, map }
    }

    /// Bans a user, deleting `dmd` days' worth of their messages (at most
    /// seven).
    pub fn ban(self, user: UserId, dmd: u8) -> (r: Result<Request, Error>)
        ensures
            ban_outcome(self, user, dmd, Seq::<char>::empty(), r),
            dmd <= 7 ==> (r matches Ok(
                Request::BanUser { guild_id, user_id, delete_message_days, reason },
            ) && guild_id == self.0 && user_id == user.0 && delete_message_days == dmd
                && reason@.len() == 0),
            dmd > 7 ==> r == Err::<Request, Error>(
                Error::Model(ModelError::DeleteMessageDaysAmount(dmd)),
            ),
    {
        let reason = "";
        proof {
            reveal_strlit("");
            assert(reason@ =~= Seq::<char>::empty());
        }
        self._ban_with_reason(user, dmd, reason)
    }

    /// Bans a user with a reason of at most 512 characters, deleting `dmd`
    /// days' worth of their messages (at most seven).
    pub fn ban_with_reason(self, user: UserId, dmd: u8, reason: &str) -> (r: Result<
        Request,
        Error,
    >)
        ensures
            ban_outcome(self, user, dmd, reason@, r),
            dmd <= 7 && reason@.len() <= 512 ==> (r matches Ok(
                Request::BanUser { guild_id, user_id, delete_message_days, reason: text },
            ) && guild_id == self.0 && user_id == user.0 && delete_message_days == dmd
                && text@ == reason@),
            dmd > 7 ==> r == Err::<Request, Error>(
                Error::Model(ModelError::DeleteMessageDaysAmount(dmd)),
            ),
            dmd <= 7 && reason@.len() > 512 ==> (r matches Err(Error::ExceededLimit(text, limit))
                && text@ == reason@ && limit == 512),
    {
        self._ban_with_reason(user, dmd, reason)
    }

    fn _ban_with_reason(self, user: UserId, dmd: u8, reason: &str) -> (r: Result<Request, Error>)
        ensures
            ban_outcome(self, user, dmd, reason@, r),
            dmd <= 7 && reason@.len() <= 512 ==> (r matches Ok(
                Request::BanUser { guild_id, user_id, delete_message_days, reason: text },
            ) && guild_id == self.0 && user_id == user.0 && delete_message_days == dmd
                && text@ == reason@),
            dmd > 7 ==> r == Err::<Request, Error>(
                Error::Model(ModelError::DeleteMessageDaysAmount(dmd)),
            ),
            dmd <= 7 && reason@.len() > 512 ==> (r matches Err(Error::ExceededLimit(text, limit))
                && text@ == reason@ && limit == 512),
    {
        if dmd > MAX_DELETE_MESSAGE_DAYS {
            return Err(Error::Model(ModelError::DeleteMessageDaysAmount(dmd)));
        }
        if reason.unicode_len() > MAX_BAN_REASON_LENGTH as usize {
            return Err(Error::ExceededLimit(String::from_str(reason), MAX_BAN_REASON_LENGTH));
        }
        Ok(
            Request::BanUser {
                guild_id: self.0,
                user_id: user.0,
                delete_message_days: dmd,
                reason: String::from_str(reason),
            },
        )
    }
}

/// What a ban of `user` from `guild` gives: the error for too many days'
/// worth of messages to delete, else the error for a reason longer than
/// 512 characters, else the ban request.
pub open spec fn ban_outcome(
    guild: GuildId,
    user: UserId,
    dmd: u8,
    reason: Seq<char>,
    r: Result<Request, Error>,
) -> bool {
    if dmd > MAX_DELETE_MESSAGE_DAYS {
        r == Err::<Request, Error>(Error::Model(ModelError::DeleteMessageDaysAmount(dmd)))
    } else if reason.len() > MAX_BAN_REASON_LENGTH {
        r matches Err(Error::ExceededLimit(text, limit)) && text@ == reason && limit
            == MAX_BAN_REASON_LENGTH
    } else {
        r matches Ok(Request::BanUser { guild_id, user_id, delete_message_days, reason: text })
            && guild_id == guild.0 && user_id == user.0 && delete_message_days == dmd && text@
            == reason
    }
}

/// A ban within the limits (at most seven days' worth of messages, a
/// reason of at most 512 characters) is the request that bans `user` from
/// `guild`, deleting exactly `dmd` days' worth of their messages and
/// recording the reason as given. More than seven days is refused with the
/// number of days; a longer reason, with the reason and the limit of 512.
pub proof fn law_ban_outcome(
    guild: GuildId,
    user: UserId,
    dmd: u8,
    reason: Seq<char>,
    r: Result<Request, Error>,
)
    requires
        ban_outcome(guild, user, dmd, reason, r),
    ensures
        dmd <= 7 && reason.len() <= 512 ==> (r matches Ok(
            Request::BanUser { guild_id, user_id, delete_message_days, reason: text },
        ) && guild_id == guild.0 && user_id == user.0 && delete_message_days == dmd && text@
            == reason),
        dmd > 7 ==> r == Err::<Request, Error>(
            Error::Model(ModelError::DeleteMessageDaysAmount(dmd)),
        ),
        dmd <= 7 && reason.len() > 512 ==> (r matches Err(Error::ExceededLimit(text, limit))
            && text@ == reason && limit == 512),
{
}

impl GuildId {
    /// Gets the guild's bans.
    pub fn bans(self) -> (r: Request)
        ensures
            r == (Request::GetBans { guild_id: self.0 }),
    {
        Request::GetBans { guild_id: self.0 }
    }

    /// Gets the guild's audit log entries: optionally only those of one
    /// action type, by one user, or before one entry, and at most `limit` of
    /// them.
    pub fn audit_logs(
        self,
        action_type: Option<u8>,
        user_id: Option<UserId>,
        before: Option<AuditLogEntryId>,
        limit: Option<u8>,
    ) -> (r: Request)
        ensures
            r == (Request::GetAuditLogs {
                guild_id: self.0,
                action_type,
                user_id: user_id_value(user_id),
                before: entry_id_value(before),
                limit,
            }),
            r matches Request::GetAuditLogs { guild_id, action_type: a, user_id: u, before: b, limit: l }
                && guild_id == self.0 && a == action_type && l == limit
                && (user_id matches Some(x) ==> u == Some(x.0))
                && (user_id is None ==> u is None)
                && (before matches Some(e) ==> b == Some(e.0))
                && (before is None ==> b is None),
    {
        let user_id_value = match user_id {
            Some(id) => Some(id.0),
            None => None,
        };
        let before_value = match before {
            Some(id) => Some(id.0),
            None => None,
        };
        Request::GetAuditLogs {
            guild_id: self.0,
            action_type,
            user_id: user_id_value,
            before: before_value,
            limit,
        }
    }

    /// Gets the guild's channels; `GuildId::collect_channels` indexes the
    /// reply by id.
    pub fn channels(self) -> (r: Request)
        ensures
            r == (Request::GetChannels { guild_id: self.0 }),
    {
        Request::GetChannels { guild_id: self.0 }
    }

    /// Creates a channel with the fields of `map`.
    pub fn create_channel(self, map: JsonMap) -> (r: Request)
        ensures
            r == (Request::CreateChannel { guild_id: self.0, map }),
    {
        Request::CreateChannel { guild_id: self.0, map }
    }

    /// Creates a scheduled event with the fields of `map`.
    pub fn create_scheduled_event(&self, map: JsonMap) -> (r: Request)
        ensures
            r == (Request::CreateScheduledEvent { guild_id: self.0, map }),
    {
        Request::CreateScheduledEvent { guild_id: self.0, map }
    }

    /// Deletes the guild; only its owner may.
    pub fn delete(self) -> (r: Request)
        ensures
            r == (Request::DeleteGuild { guild_id: self.0 }),
    {
        Request::DeleteGuild { guild_id: self.0 }
    }

    /// Deletes an emoji of the guild.
    pub fn delete_emoji(self, emoji_id: EmojiId) -> (r: Request)
        ensures
            r == (Request::DeleteEmoji { guild_id: self.0, emoji_id: emoji_id.0 }),
    {
        Request::DeleteEmoji { guild_id: self.0, emoji_id: emoji_id.0 }
    }

    /// Deletes an integration of the guild.
    pub fn delete_integration(self, integration_id: IntegrationId) -> (r: Request)
        ensures
            r == (Request::DeleteGuildIntegration {
                guild_id: self.0,
                integration_id: integration_id.0,
            }),
    {
        Request::DeleteGuildIntegration { guild_id: self.0, integration_id: integration_id.0 }
    }

    /// Deletes a role of the guild.
    pub fn delete_role(self, role_id: RoleId) -> (r: Request)
        ensures
            r == (Request::DeleteRole { guild_id: self.0, role_id: role_id.0 }),
    {
        Request::DeleteRole { guild_id: self.0, role_id: role_id.0 }
    }

    /// Deletes a scheduled event of the guild.
    pub fn delete_scheduled_event(self, event_id: ScheduledEventId) -> (r: Request)
        ensures
            r == (Request::DeleteScheduledEvent { guild_id: self.0, event_id: event_id.0 }),
    {
        Request::DeleteScheduledEvent { guild_id: self.0, event_id: event_id.0 }
    }

    /// Deletes a sticker of the guild.
    pub fn delete_sticker(self, sticker_id: StickerId) -> (r: Request)
        ensures
            r == (Request::DeleteSticker { guild_id: self.0, sticker_id: sticker_id.0 }),
    {
        Request::DeleteSticker { guild_id: self.0, sticker_id: sticker_id.0 }
    }

    /// Edits a member of the guild, setting the fields of `map`.
    pub fn edit_member(self, user_id: UserId, map: JsonMap) -> (r: Request)
        ensures
            r == (Request::EditMember { guild_id: self.0, user_id: user_id.0, map }),
    {
        Request::EditMember { guild_id: self.0, user_id: user_id.0, map }
    }

    /// Edits a role, setting the fields of `map`.
    pub fn edit_role(self, role_id: RoleId, map: JsonMap) -> (r: Request)
        ensures
            r == (Request::EditRole { guild_id: self.0, role_id: role_id.0, map }),
    {
        Request::EditRole { guild_id: self.0, role_id: role_id.0, map }
    }

    /// Edits a scheduled event, setting the fields of `map`.
    pub fn edit_scheduled_event(self, event_id: ScheduledEventId, map: JsonMap) -> (r: Request)
        ensures
            r == (Request::EditScheduledEvent { guild_id: self.0, event_id: event_id.0, map }),
    {
        Request::EditScheduledEvent { guild_id: self.0, event_id: event_id.0, map }
    }

    /// Edits a sticker, setting the fields of `map`.
    pub fn edit_sticker(&self, sticker_id: StickerId, map: JsonMap) -> (r: Request)
        ensures
            r == (Request::EditSticker { guild_id: self.0, sticker_id: sticker_id.0, map }),
    {
        Request::EditSticker { guild_id: self.0, sticker_id: sticker_id.0, map }
    }

    /// Moves a role to `position` in the guild's order of roles.
    pub fn edit_role_position(self, role_id: RoleId, position: u64) -> (r: Request)
        ensures
            r == (Request::EditRolePosition { guild_id: self.0, role_id: role_id.0, position }),
    {
        Request::EditRolePosition { guild_id: self.0, role_id: role_id.0, position }
    }

    /// Edits the guild's welcome screen, setting the fields of `map`.
    pub fn edit_welcome_screen(&self, map: JsonMap) -> (r: Request)
        ensures
            r == (Request::EditGuildWelcomeScreen {
                guild_id: self.0,
                value: JsonValue::Object(map),
            }),
    {
        Request::EditGuildWelcomeScreen { guild_id: self.0, value: JsonValue::Object(map) }
    }

    /// Edits the guild's widget, setting the fields of `map`.
    pub fn edit_widget(&self, map: JsonMap) -> (r: Request)
        ensures
            r == (Request::EditGuildWidget { guild_id: self.0, value: JsonValue::Object(map) }),
    {
        Request::EditGuildWidget { guild_id: self.0, value: JsonValue::Object(map) }
    }

    /// Gets the guild's roles; `GuildId::collect_roles` indexes the reply by
    /// id.
    pub fn roles(self) -> (r: Request)
        ensures
            r == (Request::GetGuildRoles { guild_id: self.0 }),
    {
        Request::GetGuildRoles { guild_id: self.0 }
    }

    /// Gets the guild over the REST API.
    pub fn to_partial_guild(self) -> (r: Request)
        ensures
            r == (Request::GetGuild { guild_id: self.0 }),
    {
        Request::GetGuild { guild_id: self.0 }
    }

    /// Gets the guild over the REST API, with its approximate member counts.
    pub fn to_partial_guild_with_counts(self) -> (r: Request)
        ensures
            r == (Request::GetGuildWithCounts { guild_id: self.0 }),
    {
        Request::GetGuildWithCounts { guild_id: self.0 }
    }

    /// Gets the guild's emojis.
    pub fn emojis(&self) -> (r: Request)
        ensures
            r == (Request::GetEmojis { guild_id: self.0 }),
    {
        Request::GetEmojis { guild_id: self.0 }
    }

    /// Gets an emoji of the guild.
    pub fn emoji(&self, emoji_id: EmojiId) -> (r: Request)
        ensures
            r == (Request::GetEmoji { guild_id: self.0, emoji_id: emoji_id.0 }),
    {
        Request::GetEmoji { guild_id: self.0, emoji_id: emoji_id.0 }
    }

    /// Gets the guild's stickers.
    pub fn stickers(&self) -> (r: Request)
        ensures
            r == (Request::GetGuildStickers { guild_id: self.0 }),
    {
        Request::GetGuildStickers { guild_id: self.0 }
    }

    /// Gets a sticker of the guild.
    pub fn sticker(&self, sticker_id: StickerId) -> (r: Request)
        ensures
            r == (Request::GetGuildSticker { guild_id: self.0, sticker_id: sticker_id.0 }),
    {
        Request::GetGuildSticker { guild_id: self.0, sticker_id: sticker_id.0 }
    }

    /// Gets the guild's integrations.
    pub fn integrations(self) -> (r: Request)
        ensures
            r == (Request::GetGuildIntegrations { guild_id: self.0 }),
    {
        Request::GetGuildIntegrations { guild_id: self.0 }
    }

    /// Gets the guild's invites.
    pub fn invites(self) -> (r: Request)
        ensures
            r == (Request::GetGuildInvites { guild_id: self.0 }),
    {
        Request::GetGuildInvites { guild_id: self.0 }
    }

    /// Kicks a member from the guild.
    pub fn kick(self, user_id: UserId) -> (r: Request)
        ensures
            r == (Request::KickMember { guild_id: self.0, user_id: user_id.0 }),
    {
        Request::KickMember { guild_id: self.0, user_id: user_id.0 }
    }

    /// Leaves the guild.
    pub fn leave(self) -> (r: Request)
        ensures
            r == (Request::LeaveGuild { guild_id: self.0 }),
    {
        Request::LeaveGuild { guild_id: self.0 }
    }

    /// Gets at most `limit` members of the guild (one to a thousand; a
    /// thousand when unset), those after the user `after` when it is set.
    /// A limit out of that range is refused before any request.
    pub fn members(self, limit: Option<u64>, after: Option<UserId>) -> (r: Result<Request, Error>)
        ensures
            match limit {
                Some(l) if l < 1 || l > MEMBER_FETCH_LIMIT => r matches Err(
                    Error::NotInRange(name, value, min, max),
                ) && name@ == "limit"@ && value == l && min == 1 && max == MEMBER_FETCH_LIMIT,
                _ => r == Ok::<Request, Error>(
                    Request::GetGuildMembers {
                        guild_id: self.0,
                        limit,
                        after: user_id_value(after),
                    },
                ),
            },
            limit matches Some(l) && (l == 0 || l > 1000) ==> r is Err,
            (limit is None || (limit matches Some(l) && 1 <= l <= 1000)) ==> (r matches Ok(
                Request::GetGuildMembers { guild_id, limit: l, after: a },
            ) && guild_id == self.0 && l == limit && (after matches Some(x) ==> a == Some(x.0))
                && (after is None ==> a is None)),
    {
        if let Some(l) = limit {
            if l < 1 || l > MEMBER_FETCH_LIMIT {
                return Err(Error::NotInRange(String::from_str("limit"), l, 1, MEMBER_FETCH_LIMIT));
            }
        }
        let after_value = match after {
            Some(id) => Some(id.0),
            None => None,
        };
        Ok(Request::GetGuildMembers { guild_id: self.0, limit, after: after_value })
    }

    /// Gets a scheduled event, with the number of interested users when
    /// `with_user_count` is set.
    pub fn scheduled_event(self, event_id: ScheduledEventId, with_user_count: bool) -> (r: Request)
        ensures
            r == (Request::GetScheduledEvent {
                guild_id: self.0,
                event_id: event_id.0,
                with_user_count,
            }),
    {
        Request::GetScheduledEvent { guild_id: self.0, event_id: event_id.0, with_user_count }
    }

    /// Gets the guild's scheduled events, each with its number of interested
    /// users when `with_user_count` is set.
    pub fn scheduled_events(self, with_user_count: bool) -> (r: Request)
        ensures
            r == (Request::GetScheduledEvents { guild_id: self.0, with_user_count }),
    {
        Request::GetScheduledEvents { guild_id: self.0, with_user_count }
    }

    /// Starts a sync of an integration.
    pub fn start_integration_sync(self, integration_id: IntegrationId) -> (r: Request)
        ensures
            r == (Request::StartIntegrationSync {
                guild_id: self.0,
                integration_id: integration_id.0,
            }),
    {
        Request::StartIntegrationSync { guild_id: self.0, integration_id: integration_id.0 }
    }

    /// Lifts the ban of a user.
    pub fn unban(self, user_id: UserId) -> (r: Request)
        ensures
            r == (Request::RemoveBan { guild_id: self.0, user_id: user_id.0 }),
    {
        Request::RemoveBan { guild_id: self.0, user_id: user_id.0 }
    }

    /// Gets the guild's vanity URL.
    pub fn vanity_url(self) -> (r: Request)
        ensures
            r == (Request::GetGuildVanityUrl { guild_id: self.0 }),
    {
        Request::GetGuildVanityUrl { guild_id: self.0 }
    }

    /// Gets the guild's webhooks.
    pub fn webhooks(self) -> (r: Request)
        ensures
            r == (Request::GetGuildWebhooks { guild_id: self.0 }),
    {
        Request::GetGuildWebhooks { guild_id: self.0 }
    }

    /// Creates an application command of the guild, with the fields of `map`.
    pub fn create_application_command(&self, map: JsonMap) -> (r: Request)
        ensures
            r == (Request::CreateGuildApplicationCommand {
                guild_id: self.0,
                value: JsonValue::Object(map),
            }),
    {
        Request::CreateGuildApplicationCommand {
            guild_id: self.0,
            value: JsonValue::Object(map),
        }
    }

    /// Replaces all the guild's application commands by `commands`.
    pub fn set_application_commands(&self, commands: Vec<JsonValue>) -> (r: Request)
        ensures
            r == (Request::CreateGuildApplicationCommands {
                guild_id: self.0,
                value: JsonValue::Array(commands),
            }),
    {
        Request::CreateGuildApplicationCommands {
            guild_id: self.0,
            value: JsonValue::Array(commands),
        }
    }

    /// Sets the permissions of one application command of the guild to the
    /// fields of `map`.
    pub fn create_application_command_permission(
        &self,
        command_id: CommandId,
        map: JsonMap,
    ) -> (r: Request)
        ensures
            r == (Request::EditGuildApplicationCommandPermissions {
                guild_id: self.0,
                command_id: command_id.0,
                value: JsonValue::Object(map),
            }),
    {
        Request::EditGuildApplicationCommandPermissions {
            guild_id: self.0,
            command_id: command_id.0,
            value: JsonValue::Object(map),
        }
    }

    /// Replaces the permissions of all the guild's application commands by
    /// `permissions`.
    pub fn set_application_commands_permissions(&self, permissions: Vec<JsonValue>) -> (r: Request)
        ensures
            r == (Request::EditGuildApplicationCommandsPermissions {
                guild_id: self.0,
                value: JsonValue::Array(permissions),
            }),
    {
        Request::EditGuildApplicationCommandsPermissions {
            guild_id: self.0,
            value: JsonValue::Array(permissions),
        }
    }

    /// Gets all application commands of the guild.
    pub fn get_application_commands(&self) -> (r: Request)
        ensures
            r == (Request::GetGuildApplicationCommands { guild_id: self.0 }),
    {
        Request::GetGuildApplicationCommands { guild_id: self.0 }
    }

    /// Gets an application command of the guild.
    pub fn get_application_command(&self, command_id: CommandId) -> (r: Request)
        ensures
            r == (Request::GetGuildApplicationCommand {
                guild_id: self.0,
                command_id: command_id.0,
            }),
    {
        Request::GetGuildApplicationCommand { guild_id: self.0, command_id: command_id.0 }
    }

    /// Edits an application command of the guild, setting the fields of
    /// `map`.
    pub fn edit_application_command(&self, command_id: CommandId, map: JsonMap) -> (r: Request)
        ensures
            r == (Request::EditGuildApplicationCommand {
                guild_id: self.0,
                command_id: command_id.0,
                value: JsonValue::Object(map),
            }),
    {
        Request::EditGuildApplicationCommand {
            guild_id: self.0,
            command_id: command_id.0,
            value: JsonValue::Object(map),
        }
    }

    /// Deletes an application command of the guild.
    pub fn delete_application_command(&self, command_id: CommandId) -> (r: Request)
        ensures
            r == (Request::DeleteGuildApplicationCommand {
                guild_id: self.0,
                command_id: command_id.0,
            }),
    {
        Request::DeleteGuildApplicationCommand { guild_id: self.0, command_id: command_id.0 }
    }

    /// Gets the permissions of all application commands of the guild.
    pub fn get_application_commands_permissions(&self) -> (r: Request)
        ensures
            r == (Request::GetGuildApplicationCommandsPermissions { guild_id: self.0 }),
    {
        Request::GetGuildApplicationCommandsPermissions { guild_id: self.0 }
    }

    /// Gets the permissions of an application command of the guild.
    pub fn get_application_command_permissions(&self, command_id: CommandId) -> (r: Request)
        ensures
            r == (Request::GetGuildApplicationCommandPermissions {
                guild_id: self.0,
                command_id: command_id.0,
            }),
    {
        Request::GetGuildApplicationCommandPermissions {
            guild_id: self.0,
            command_id: command_id.0,
        }
    }

    /// Gets the guild's welcome screen.
    pub fn get_welcome_screen(&self) -> (r: Request)
        ensures
            r == (Request::GetGuildWelcomeScreen { guild_id: self.0 }),
    {
        Request::GetGuildWelcomeScreen { guild_id: self.0 }
    }

    /// Gets the guild's preview.
    pub fn get_preview(&self) -> (r: Request)
        ensures
            r == (Request::GetGuildPreview { guild_id: self.0 }),
    {
        Request::GetGuildPreview { guild_id: self.0 }
    }

    /// Gets the guild's widget.
    pub fn get_widget(&self) -> (r: Request)
        ensures
            r == (Request::GetGuildWidget { guild_id: self.0 }),
    {
        Request::GetGuildWidget { guild_id: self.0 }
    }

    /// Gets the guild's active threads.
    pub fn get_active_threads(&self) -> (r: Request)
        ensures
            r == (Request::GetGuildActiveThreads { guild_id: self.0 }),
    {
        Request::GetGuildActiveThreads { guild_id: self.0 }
    }
}

impl GuildId {
    /// Creates an emoji named `name` from the base64-encoded `image`.
    pub fn create_emoji(self, name: &str, image: &str) -> (r: Request)
        ensures
            r matches Request::CreateEmoji { guild_id, map } && guild_id == self.0 && map.len() == 2
                && map[0].0@ == "name"@ && is_json_str(map[0].1, name@) && map[1].0@ == "image"@
                && is_json_str(map[1].1, image@),
    {
        let map = vec![entry("name", json_str(name)), entry("image", json_str(image))];
        Request::CreateEmoji { guild_id: self.0, map }
    }

    /// Creates an integration of type `kind` for the guild.
    pub fn create_integration(self, integration_id: IntegrationId, kind: &str) -> (r: Request)
        ensures
            r matches Request::CreateGuildIntegration { guild_id, integration_id: id, map }
                && guild_id == self.0 && id == integration_id.0 && map.len() == 2 && map[0].0@
                == "id"@ && map[0].1 == JsonValue::UInt(integration_id.0) && map[1].0@ == "type"@
                && is_json_str(map[1].1, kind@),
    {
        let map = vec![
            entry("id", JsonValue::UInt(integration_id.0)),
            entry("type", json_str(kind)),
        ];
        Request::CreateGuildIntegration { guild_id: self.0, integration_id: integration_id.0, map }
    }

    /// Edits the guild, setting the fields of `map`.
    pub fn edit(&mut self, map: JsonMap) -> (r: Request)
        ensures
            *final(self) == *old(self),
            r == (Request::EditGuild { guild_id: old(self).0, map }),
    {
        Request::EditGuild { guild_id: self.0, map }
    }

    /// Renames an emoji of the guild.
    pub fn edit_emoji(self, emoji_id: EmojiId, name: &str) -> (r: Request)
        ensures
            r matches Request::EditEmoji { guild_id, emoji_id: id, map } && guild_id == self.0 && id
                == emoji_id.0 && map.len() == 1 && map[0].0@ == "name"@ && is_json_str(
                map[0].1,
                name@,
            ),
    {
        let map = vec![entry("name", json_str(name))];
        Request::EditEmoji { guild_id: self.0, emoji_id: emoji_id.0, map }
    }

    /// Sets the current user's nickname in the guild; `None` resets it.
    pub fn edit_nickname(self, new_nickname: Option<&str>) -> (r: Request)
        ensures
            r matches Request::EditNickname { guild_id, nickname } && guild_id == self.0 && match (
                nickname,
                new_nickname,
            ) {
                (Some(n), Some(m)) => n@ == m@,
                (None, None) => true,
                _ => false,
            },
    {
        let nickname = match new_nickname {
            Some(n) => Some(String::from_str(n)),
            None => None,
        };
        Request::EditNickname { guild_id: self.0, nickname }
    }

    /// Kicks a member from the guild, recording `reason` in the audit log.
    pub fn kick_with_reason(self, user_id: UserId, reason: &str) -> (r: Request)
        ensures
            r matches Request::KickMemberWithReason { guild_id, user_id: id, reason: text }
                && guild_id == self.0 && id == user_id.0 && text@ == reason@,
    {
        Request::KickMemberWithReason {
            guild_id: self.0,
            user_id: user_id.0,
            reason: String::from_str(reason),
        }
    }

    /// Moves a member to the voice channel `channel_id`.
    pub fn move_member(self, user_id: UserId, channel_id: ChannelId) -> (r: Request)
        ensures
            r matches Request::EditMember { guild_id, user_id: id, map } && guild_id == self.0 && id
                == user_id.0 && map.len() == 1 && map[0].0@ == "channel_id"@ && map[0].1
                == JsonValue::UInt(channel_id.0),
    {
        let map = vec![entry("channel_id", JsonValue::UInt(channel_id.0))];
        Request::EditMember { guild_id: self.0, user_id: user_id.0, map }
    }

    /// Disconnects a member from the voice channel they are in.
    pub fn disconnect_member(self, user_id: UserId) -> (r: Request)
        ensures
            r matches Request::EditMember { guild_id, user_id: id, map } && guild_id == self.0 && id
                == user_id.0 && map.len() == 1 && map[0].0@ == "channel_id"@ && map[0].1
                == JsonValue::Null,
    {
        let map = vec![entry("channel_id", JsonValue::Null)];
        Request::EditMember { guild_id: self.0, user_id: user_id.0, map }
    }

    /// Counts the members that a prune of `days` days of inactivity would remove.
    pub fn prune_count(self, days: u16) -> (r: Request)
        ensures
            r matches Request::GetGuildPruneCount { guild_id, map } && guild_id == self.0
                && map.len() == 1 && map[0].0@ == "days"@ && map[0].1 == JsonValue::UInt(
                days as u64,
            ),
    {
        let map = vec![entry("days", JsonValue::UInt(days as u64))];
        Request::GetGuildPruneCount { guild_id: self.0, map }
    }

    /// Searches for at most `limit` members whose user name or nickname
    /// starts with `query`. The API accepts a limit of one to a thousand
    /// (a thousand when unset); the limit is sent as given, and no error is
    /// raised here for one out of that range.
    pub fn search_members(self, query: &str, limit: Option<u64>) -> (r: Request)
        ensures
            r matches Request::SearchGuildMembers { guild_id, query: q, limit: l } && guild_id
                == self.0 && q@ == query@ && l == limit,
    {
        Request::SearchGuildMembers { guild_id: self.0, query: String::from_str(query), limit }
    }

    /// Gets the users interested in a scheduled event, at most `limit` of
    /// them (a hundred when unset).
    pub fn scheduled_event_users(self, event_id: ScheduledEventId, limit: Option<u64>) -> (r:
        Request)
        ensures
            r == (Request::GetScheduledEventUsers {
                guild_id: self.0,
                event_id: event_id.0,
                limit,
                target: None,
                with_member: None,
            }),
    {
        Request::GetScheduledEventUsers {
            guild_id: self.0,
            event_id: event_id.0,
            limit,
            target: None,
            with_member: None,
        }
    }

    /// Gets the users interested in a scheduled event, from where `target`
    /// says, with their member data when `with_member` is set.
    pub fn scheduled_event_users_optioned(
        self,
        event_id: ScheduledEventId,
        limit: Option<u64>,
        target: Option<UserPagination>,
        with_member: Option<bool>,
    ) -> (r: Request)
        ensures
            r == (Request::GetScheduledEventUsers {
                guild_id: self.0,
                event_id: event_id.0,
                limit,
                target,
                with_member,
            }),
    {
        Request::GetScheduledEventUsers {
            guild_id: self.0,
            event_id: event_id.0,
            limit,
            target,
            with_member,
        }
    }

    /// Starts a prune of the members inactive for `days` days.
    pub fn start_prune(self, days: u16) -> (r: Request)
        ensures
            r == (Request::StartGuildPrune { guild_id: self.0, days: days as u64 }),
    {
        Request::StartGuildPrune { guild_id: self.0, days: days as u64 }
    }

    /// Creates a sticker with the fields of `map` and the image `file`;
    /// refused before any request when there is no file.
    pub fn create_sticker(self, map: JsonMap, file: Option<AttachmentType>) -> (r: Result<
        Request,
        Error,
    >)
        ensures
            match file {
                Some(f) => r == Ok::<Request, Error>(
                    Request::CreateSticker { guild_id: self.0, map, file: f },
                ),
                None => r == Err::<Request, Error>(Error::Model(ModelError::NoStickerFileSet)),
            },
    {
        match file {
            Some(f) => Ok(Request::CreateSticker { guild_id: self.0, map, file: f }),
            None => Err(Error::Model(ModelError::NoStickerFileSet)),
        }
    }
}

/// The position that the fields `map` of a new role ask for: the value of
/// its "position" field, when that holds a non-negative integer.
pub open spec fn spec_requested_position(map: Seq<(String, JsonValue)>) -> Option<u64> {
    match json_get(map, "position"@) {
        Some(v) => spec_as_u64(v),
        None => None,
    }
}

/// A new role asks for the position held by the first "position" entry of
/// its fields, wherever that entry stands: the integer when it is a
/// non-negative one (given as unsigned or as signed), and no position when
/// it holds anything else.
pub proof fn law_requested_position(map: Seq<(String, JsonValue)>, i: int)
    requires
        0 <= i < map.len(),
        map[i].0@ == "position"@,
        forall|j: int| 0 <= j < i ==> map[j].0@ != "position"@,
    ensures
        map[i].1 matches JsonValue::UInt(n) ==> spec_requested_position(map) == Some(n),
        map[i].1 matches JsonValue::Int(x) ==> spec_requested_position(map) == (if x >= 0 {
            Some(x as u64)
        } else {
            None
        }),
        !(map[i].1 is UInt || map[i].1 is Int) ==> spec_requested_position(map) is None,
{
    lemma_first_key_index(map, "position"@, i);
}

/// Fields without a "position" entry ask for no position.
pub proof fn law_requested_position_absent(map: Seq<(String, JsonValue)>)
    requires
        forall|j: int| 0 <= j < map.len() ==> map[j].0@ != "position"@,
    ensures
        spec_requested_position(map) is None,
{
    lemma_first_key_index_none(map, "position"@);
}

/// What follows the answer to the request that creates a role.
#[derive(Debug, PartialEq)]
pub enum RoleFollowUp<E> {
    /// The role was created and is to be moved: perform `request`, then
    /// hand its answer to `GuildId::create_role_finish`.
    Move { role: Role, request: Request },
    /// Creating the role is over, with this result.
    Done(Result<Role, E>),
}

/// What follows the answer `created` to the create request of a role of
/// guild `guild` whose fields asked for `position`: a failed creation ends
/// with its error and nothing follows; a created role is moved to the
/// position when one was asked for, else it is the result.
pub open spec fn spec_role_follow_up<E>(
    guild: GuildId,
    position: Option<u64>,
    created: Result<Role, E>,
) -> RoleFollowUp<E> {
    match created {
        Err(e) => RoleFollowUp::Done(Err(e)),
        Ok(role) => match position {
            Some(p) => RoleFollowUp::Move {
                role,
                request: Request::EditRolePosition {
                    guild_id: guild.0,
                    role_id: role.id.0,
                    position: p,
                },
            },
            None => RoleFollowUp::Done(Ok(role)),
        },
    }
}

/// Creating a role from the fields `map` makes a second request exactly
/// when the role was created and `map` has a "position" field holding a
/// non-negative integer; that request moves the created role, by its id,
/// to that position. A failed creation ends with its error.
pub proof fn law_create_role_follow_up<E>(
    guild: GuildId,
    map: Seq<(String, JsonValue)>,
    created: Result<Role, E>,
)
    ensures
        (spec_role_follow_up(guild, spec_requested_position(map), created) is Move) <==> (
        created is Ok && spec_requested_position(map) is Some),
        spec_role_follow_up(guild, spec_requested_position(map), created) matches
            RoleFollowUp::Move { role, request } ==> created == Ok::<Role, E>(role) && request == (Request::EditRolePosition {
            guild_id: guild.0,
            role_id: role.id.0,
            position: spec_requested_position(map).unwrap(),
        }),
        created matches Err(e) ==> spec_role_follow_up(guild, spec_requested_position(map), created)
            == RoleFollowUp::Done(Err::<Role, E>(e)),
{
}

impl GuildId {
    /// Creates a role with the fields of `map`: the first of up to two
    /// requests. When `map` asks for a position (`GuildId::requested_position`)
    /// and the role was created, a second request moves the new role there
    /// (`GuildId::create_role_follow_up`); nothing follows a failed creation.
    pub fn create_role(self, map: JsonMap) -> (r: Request)
        ensures
            r == (Request::CreateRole { guild_id: self.0, map }),
    {
        Request::CreateRole { guild_id: self.0, map }
    }

    /// The position that the fields `map` of a new role ask for, if any:
    /// the role is moved there after it was created.
    pub fn requested_position(map: &JsonMap) -> (p: Option<u64>)
        ensures
            p == spec_requested_position(map@),
            match first_key_index(map@, "position"@) {
                Some(i) => p == spec_as_u64(map@[i].1),
                None => p is None,
            },
    {
        match find_key(map, "position") {
            Some(i) => map[i].1.as_u64(),
            None => None,
        }
    }

    /// Takes in the answer to the create request of a role whose fields
    /// asked for `position` (see `GuildId::requested_position`). A failed
    /// creation ends with its error and nothing follows; a created role is
    /// moved to the position when one was asked for, else it is the result.
    pub fn create_role_follow_up<E>(&self, position: Option<u64>, created: Result<Role, E>) -> (r:
        RoleFollowUp<E>)
        ensures
            r == spec_role_follow_up(*self, position, created),
    {
        match created {
            Err(e) => RoleFollowUp::Done(Err(e)),
            Ok(role) => match position {
                Some(p) => {
                    let request = self.edit_role_position(role.id, p);
                    RoleFollowUp::Move { role, request }
                },
                None => RoleFollowUp::Done(Ok(role)),
            },
        }
    }

    /// Takes in the answer to the request that moved the new role `role`:
    /// the role when the move succeeded, else the move's error (the role
    /// stays created).
    pub fn create_role_finish<T, E>(role: Role, moved: Result<T, E>) -> (r: Result<Role, E>)
        ensures
            match moved {
                Ok(_) => r == Ok::<Role, E>(role),
                Err(e) => r == Err::<Role, E>(e),
            },
    {
        match moved {
            Ok(_) => Ok(role),
            Err(e) => Err(e),
        }
    }
}

/// Whether `item` is the entry of a channel reordering that puts channel
/// `id` at `position`: `{"id": "<id in decimal>", "position": position}`
/// (a channel id goes over the wire as a string).
pub open spec fn is_position_item(item: JsonValue, id: ChannelId, position: u64) -> bool {
    match item {
        JsonValue::Object(m) => m.len() == 2 && m[0].0@ == "id"@ && is_json_str(
            m[0].1,
            decimal(id.0 as nat),
        ) && m[1].0@ == "position"@ && m[1].1 == JsonValue::UInt(position),
        _ => false,
    }
}

impl GuildId {
    /// Reorders the guild's channels: each pair gives a channel and its
    /// new position, in the order given.
    pub fn reorder_channels(self, channels: Vec<(ChannelId, u64)>) -> (r: Request)
        ensures
            r matches Request::EditGuildChannelPositions {
                guild_id,
                value: JsonValue::Array(items),
            } && guild_id == self.0 && items.len() == channels.len() && forall|i: int|
                0 <= i < channels.len() ==> #[trigger] is_position_item(
                    items[i],
                    channels[i].0,
                    channels[i].1,
                ),
    {
        let mut items: Vec<JsonValue> = Vec::new();
        let mut i: usize = 0;
        while i < channels.len()
            invariant
                i <= channels.len(),
                items.len() == i,
                forall|j: int| 0 <= j < i ==> #[trigger] is_position_item(
                    items[j],
                    channels[j].0,
                    channels[j].1,
                ),
            decreases channels.len() - i,
        {
            let (id, position) = channels[i];
            let map = vec![
                entry("id", JsonValue::Str(to_decimal(id.0))),
                entry("position", JsonValue::UInt(position)),
            ];
            items.push(JsonValue::Object(map));
            i = i + 1;
        }
        Request::EditGuildChannelPositions { guild_id: self.0, value: JsonValue::Array(items) }
    }
}

} // verus!
