//! A verified model of a Discord guild id and the operations that a bot
//! performs on it: which REST request each operation makes (and which it
//! refuses before sending anything), how the replies are indexed, how the
//! cache is consulted, how a walk over all members pages through them,
//! which gateway shard serves a guild, and where its widget image lives.

pub mod cache;
pub mod cached;
pub mod collector;
pub mod decimal;
pub mod from;
pub mod guild_id;
pub mod id;
pub mod index;
pub mod json;
pub mod members_iter;
pub mod members_walk;
pub mod model;
pub mod request;
pub mod shard;
pub mod widget;

pub use cache::Cache;
pub use cached::MemberLookup;
pub use id::{
    AuditLogEntryId, ChannelId, CommandId, EmojiId, GuildId, IntegrationId, RoleId, RuleId,
    ScheduledEventId, StickerId, UserId,
};
pub use guild_id::RoleFollowUp;
pub use index::Keyed;
pub use json::{JsonMap, JsonValue};
pub use members_iter::{MembersAction, MembersIter};
pub use model::{
    AttachmentType, Error, Guild, GuildChannel, GuildInfo, InviteGuild, Member, ModelError,
    PartialGuild, Role, User, UserPagination,
};
pub use request::Request;
pub use shard::ShardCountSource;
pub use widget::GuildWidgetStyle;
