use vstd::prelude::*;
use crate::id::{ChannelId, GuildId, RoleId, UserId};

verus! {

/// A Discord user, as far as the operations here look at one.
#[derive(Debug, PartialEq)]
pub struct User {
    pub id: UserId,
    pub name: String,
    pub bot: bool,
}

impl Clone for User {
    fn clone(&self) -> (r: Self)
        ensures
            r == *self,
    {
        User { id: self.id, name: self.name.clone(), bot: self.bot }
    }
}

/// A user's membership of a guild.
#[derive(Debug, PartialEq)]
pub struct Member {
    pub guild_id: GuildId,
    pub user: User,
    pub nick: Option<String>,
}

impl Clone for Member {
    fn clone(&self) -> (r: Self)
        ensures
            r == *self,
    {
        let nick = match &self.nick {
            Some(n) => Some(n.clone()),
            None => None,
        };
        Member { guild_id: self.guild_id, user: self.user.clone(), nick }
    }
}

/// A guild as the gateway delivers it and the cache keeps it.
#[derive(Debug, PartialEq)]
pub struct Guild {
    pub id: GuildId,
    pub name: String,
    pub owner_id: UserId,
    pub member_count: u64,
}

impl Clone for Guild {
    fn clone(&self) -> (r: Self)
        ensures
            r == *self,
    {
        Guild {
            id: self.id,
            name: self.name.clone(),
            owner_id: self.owner_id,
            member_count: self.member_count,
        }
    }
}

/// A guild as the REST API returns it, without the gateway-only data.
#[derive(Clone, Debug, PartialEq)]
pub struct PartialGuild {
    pub id: GuildId,
    pub name: String,
    pub owner_id: UserId,
}

/// The summary of a guild that the current user is in.
#[derive(Clone, Debug, PartialEq)]
pub struct GuildInfo {
    pub id: GuildId,
    pub name: String,
    pub owner: bool,
}

/// The guild that an invite leads to.
#[derive(Clone, Debug, PartialEq)]
pub struct InviteGuild {
    pub id: GuildId,
    pub name: String,
}

/// A channel of a guild.
#[derive(Clone, Debug, PartialEq)]
pub struct GuildChannel {
    pub id: ChannelId,
    pub guild_id: GuildId,
    pub name: String,
    pub position: i64,
}

/// A role of a guild.
#[derive(Clone, Debug, PartialEq)]
pub struct Role {
    pub id: RoleId,
    pub guild_id: GuildId,
    pub name: String,
    pub position: i64,
}

/// A file to upload with a request.
#[derive(Clone, Debug, PartialEq)]
pub enum AttachmentType {
    /// Bytes held in memory, with the file name to send them under.
    Bytes { data: Vec<u8>, filename: String },
    /// A file on the local disk.
    Path(String),
    /// A remote image, fetched before the upload.
    Image(String),
}

/// Where a page of scheduled event users starts.
#[derive(Clone, Copy, Debug, PartialEq, Eq)]
pub enum UserPagination {
    After(UserId),
    Before(UserId),
}

/// Errors that the model reports before any request is made.
#[derive(Clone, Copy, Debug, PartialEq, Eq)]
pub enum ModelError {
    /// The number of days' worth of messages to delete on a ban is over
    /// the maximum of seven.
    DeleteMessageDaysAmount(u8),
    /// A sticker was to be created without a file.
    NoStickerFileSet,
}

/// The errors of this library.
#[derive(Clone, Debug, PartialEq)]
pub enum Error {
    Model(ModelError),
    /// A text was longer than the limit: the text, and the limit.
    ExceededLimit(String, u32),
    /// A number was out of its range: the name of the parameter, the
    /// number, and the least and greatest values allowed.
    NotInRange(String, u64, u64, u64),
}

} // verus!
