use vstd::prelude::*;

verus! {

/// The id of a guild (a Discord "server").
#[derive(Clone, Copy, Debug, PartialEq, Eq, Structural, Hash, PartialOrd, Ord, Default)]
pub struct GuildId(pub u64);

/// The id of a user.
#[derive(Clone, Copy, Debug, PartialEq, Eq, Structural, Hash, PartialOrd, Ord, Default)]
pub struct UserId(pub u64);

/// The id of a channel.
#[derive(Clone, Copy, Debug, PartialEq, Eq, Structural, Hash, PartialOrd, Ord, Default)]
pub struct ChannelId(pub u64);

/// The id of a role.
#[derive(Clone, Copy, Debug, PartialEq, Eq, Structural, Hash, PartialOrd, Ord, Default)]
pub struct RoleId(pub u64);

/// The id of a custom emoji.
#[derive(Clone, Copy, Debug, PartialEq, Eq, Structural, Hash, PartialOrd, Ord, Default)]
pub struct EmojiId(pub u64);

/// The id of a guild integration.
#[derive(Clone, Copy, Debug, PartialEq, Eq, Structural, Hash, PartialOrd, Ord, Default)]
pub struct IntegrationId(pub u64);

/// The id of an auto moderation rule.
#[derive(Clone, Copy, Debug, PartialEq, Eq, Structural, Hash, PartialOrd, Ord, Default)]
pub struct RuleId(pub u64);

/// The id of a sticker.
#[derive(Clone, Copy, Debug, PartialEq, Eq, Structural, Hash, PartialOrd, Ord, Default)]
pub struct StickerId(pub u64);

/// The id of a scheduled event.
#[derive(Clone, Copy, Debug, PartialEq, Eq, Structural, Hash, PartialOrd, Ord, Default)]
pub struct ScheduledEventId(pub u64);

/// The id of an audit log entry.
#[derive(Clone, Copy, Debug, PartialEq, Eq, Structural, Hash, PartialOrd, Ord, Default)]
pub struct AuditLogEntryId(pub u64);

/// The id of an application command.
#[derive(Clone, Copy, Debug, PartialEq, Eq, Structural, Hash, PartialOrd, Ord, Default)]
pub struct CommandId(pub u64);

/// The numeric value of an optional user id.
pub open spec fn user_id_value(id: Option<UserId>) -> Option<u64> {
    match id {
        Some(u) => Some(u.0),
        None => None,
    }
}

/// The numeric value of an optional audit log entry id.
pub open spec fn entry_id_value(id: Option<AuditLogEntryId>) -> Option<u64> {
    match id {
        Some(e) => Some(e.0),
        None => None,
    }
}

/// A set user id or audit log entry id is sent as its numeric value, and
/// an unset one is sent unset.
pub proof fn law_id_values(user: Option<UserId>, entry: Option<AuditLogEntryId>)
    ensures
        user matches Some(u) ==> user_id_value(user) == Some(u.0),
        user is None ==> user_id_value(user) is None,
        entry matches Some(e) ==> entry_id_value(entry) == Some(e.0),
        entry is None ==> entry_id_value(entry) is None,
{
}

} // verus!
