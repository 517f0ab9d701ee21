use vstd::prelude::*;
use crate::cache::Cache;
use crate::collector::{
    spec_unrestricted, CollectReaction, CollectReply, CollectorFilter, MessageCollectorBuilder,
    ReactionCollectorBuilder,
};
use crate::id::{GuildId, UserId};
use crate::members_iter::MembersIter;
use crate::model::{Guild, Member};
use crate::request::Request;

verus! {

/// Where a member comes from: the cache, or a request.
#[derive(Debug, PartialEq)]
pub enum MemberLookup {
    /// The cache held the member.
    Cached(Member),
    /// The cache did not hold it (or there is no cache): this request gets it.
    Fetch(Request),
}

/// The filter that collects only the events of guild `guild_id`.
pub open spec fn spec_guild_filter(guild_id: GuildId) -> CollectorFilter {
    CollectorFilter { guild_id: Some(guild_id.0), ..spec_unrestricted() }
}

/// A guild's collectors take the events of that guild, from any channel
/// and any author, with no limit on how many.
pub proof fn law_guild_filter(guild_id: GuildId)
    ensures
        spec_guild_filter(guild_id).guild_id == Some(guild_id.0),
        spec_guild_filter(guild_id).channel_id is None,
        spec_guild_filter(guild_id).author_id is None,
        spec_guild_filter(guild_id).collect_limit is None,
{
}

impl GuildId {
    /// The guild with this id, if the cache holds it.
    pub fn to_guild_cached(self, cache: &Cache) -> (g: Option<Guild>)
        ensures
            g == cache.guild_map().get(self.0),
            g matches Some(guild) ==> guild.id == self,
    {
        cache.guild(self)
    }

    /// The name of the guild with this id, if the cache holds it.
    pub fn name(self, cache: &Cache) -> (n: Option<String>)
        ensures
            match cache.guild_map().get(self.0) {
                Some(g) => n == Some(g.name) && g.id == self,
                None => n is None,
            },
    {
        let guild = self.to_guild_cached(cache)?;
        Some(guild.name)
    }

    /// Gets a member of the guild: from the cache, when there is one and it
    /// holds the member, else by a request.
    pub fn member(self, cache: Option<&Cache>, user_id: UserId) -> (r: MemberLookup)
        ensures
            match cache {
                Some(c) => match c.spec_member(self.0, user_id.0) {
                    Some(m) => r == MemberLookup::Cached(m) && m.guild_id == self && m.user.id
                        == user_id,
                    None => r == MemberLookup::Fetch(
                        Request::GetMember { guild_id: self.0, user_id: user_id.0 },
                    ),
                },
                None => r == MemberLookup::Fetch(
                    Request::GetMember { guild_id: self.0, user_id: user_id.0 },
                ),
            },
    {
        if let Some(c) = cache {
            if let Some(m) = c.member(self, user_id) {
                return MemberLookup::Cached(m);
            }
        }
        MemberLookup::Fetch(Request::GetMember { guild_id: self.0, user_id: user_id.0 })
    }

    /// A walk over all the members of the guild, a page of at most a
    /// thousand at a time.
    pub fn members_iter(self) -> (it: MembersIter)
        ensures
            it@.guild_id == self,
            it@.pending == Seq::<Member>::empty(),
            it@.after is None,
            !it@.tried_fetch,
    {
        MembersIter::new(self)
    }

    fn guild_filter(&self) -> (f: CollectorFilter)
        ensures
            f == spec_guild_filter(*self),
    {
        CollectorFilter { guild_id: Some(self.0), ..CollectorFilter::unrestricted() }
    }

    /// Waits for one message sent in this guild.
    pub fn await_reply(&self) -> (c: CollectReply)
        ensures
            c.filter == spec_guild_filter(*self),
    {
        CollectReply { filter: self.guild_filter() }
    }

    /// Collects the messages sent in this guild.
    pub fn await_replies(&self) -> (c: MessageCollectorBuilder)
        ensures
            c.filter == spec_guild_filter(*self),
    {
        MessageCollectorBuilder { filter: self.guild_filter() }
    }

    /// Waits for one reaction added in this guild.
    pub fn await_reaction(&self) -> (c: CollectReaction)
        ensures
            c.filter == spec_guild_filter(*self),
    {
        CollectReaction { filter: self.guild_filter() }
    }

    /// Collects the reactions added in this guild.
    pub fn await_reactions(&self) -> (c: ReactionCollectorBuilder)
        ensures
            c.filter == spec_guild_filter(*self),
    {
        ReactionCollectorBuilder { filter: self.guild_filter() }
    }
}

} // verus!
