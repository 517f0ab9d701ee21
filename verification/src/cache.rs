use vstd::prelude::*;
use std::collections::HashMap;
use crate::id::{GuildId, UserId};
use crate::model::{Guild, Member};

verus! {

broadcast use vstd::std_specs::hash::group_hash_axioms;

/// The state that a bot keeps of the guilds it has seen over the gateway:
/// the guilds by id, their members by guild and user id, and the number
/// of shards in use.
pub struct Cache {
    guilds: HashMap<u64, Guild>,
    members: HashMap<u64, HashMap<u64, Member>>,
    shard_count: u64,
}

/// Whether every guild of `guilds` is held under its own id, and every
/// member of `members` under its own guild id and user id.
pub open spec fn spec_keys_match(
    guilds: Map<u64, Guild>,
    members: Map<u64, Map<u64, Member>>,
) -> bool {
    &&& forall|k: u64| #[trigger] guilds.contains_key(k) ==> guilds[k].id.0 == k
    &&& forall|g: u64, u: u64|
        #[trigger] members.contains_key(g) && #[trigger] members[g].contains_key(u)
            ==> members[g][u].guild_id.0 == g && members[g][u].user.id.0 == u
}

impl Cache {
    #[verifier::type_invariant]
    spec fn inv(self) -> bool {
        spec_keys_match(self.guild_map(), self.member_map())
    }

    /// Every guild is held under its own id, every member under its own
    /// guild and user id.
    pub open spec fn wf(&self) -> bool {
        spec_keys_match(self.guild_map(), self.member_map())
    }

    /// The guilds held, by the numeric value of their id.
    pub closed spec fn guild_map(&self) -> Map<u64, Guild> {
        self.guilds@
    }

    /// The members held, by guild id and then by user id.
    pub closed spec fn member_map(&self) -> Map<u64, Map<u64, Member>> {
        self.members@.map_values(|m: HashMap<u64, Member>| m@)
    }

    /// The number of shards in use.
    pub closed spec fn spec_shard_count(&self) -> u64 {
        self.shard_count
    }

    /// The member of guild `guild_id` whose user id is `user_id`, if held.
    pub open spec fn spec_member(&self, guild_id: u64, user_id: u64) -> Option<Member> {
        if self.member_map().contains_key(guild_id) {
            self.member_map()[guild_id].get(user_id)
        } else {
            None
        }
    }

    /// An empty cache for a bot that runs `shard_count` shards.
    pub fn new(shard_count: u64) -> (c: Cache)
        ensures
            c.guild_map() == Map::<u64, Guild>::empty(),
            c.member_map() == Map::<u64, Map<u64, Member>>::empty(),
            c.spec_shard_count() == shard_count,
            c.wf(),
    {
        let c = Cache { guilds: HashMap::new(), members: HashMap::new(), shard_count };
        proof {
            assert(c.member_map() =~= Map::<u64, Map<u64, Member>>::empty());
        }
        c
    }

    /// Stores `guild` under its id, replacing what was held there.
    pub fn insert_guild(&mut self, guild: Guild)
        ensures
            final(self).guild_map() == old(self).guild_map().insert(guild.id.0, guild),
            final(self).member_map() == old(self).member_map(),
            final(self).spec_shard_count() == old(self).spec_shard_count(),
            final(self).wf(),
    {
        proof {
            use_type_invariant(&*self);
        }
        let key = guild.id.0;
        let mut guilds: HashMap<u64, Guild> = HashMap::new();
        std::mem::swap(&mut guilds, &mut self.guilds);
        guilds.insert(key, guild);
        self.guilds = guilds;
    }

    /// Stores `member` under its guild and user id, replacing what was held there.
    pub fn insert_member(&mut self, member: Member)
        ensures
            final(self).guild_map() == old(self).guild_map(),
            final(self).member_map() == old(self).member_map().insert(
                member.guild_id.0,
                if old(self).member_map().contains_key(member.guild_id.0) {
                    old(self).member_map()[member.guild_id.0].insert(member.user.id.0, member)
                } else {
                    Map::<u64, Member>::empty().insert(member.user.id.0, member)
                },
            ),
            final(self).spec_shard_count() == old(self).spec_shard_count(),
            final(self).wf(),
    {
        proof {
            use_type_invariant(&*self);
        }
        let g = member.guild_id.0;
        let u = member.user.id.0;
        let mut members: HashMap<u64, HashMap<u64, Member>> = HashMap::new();
        std::mem::swap(&mut members, &mut self.members);
        let ghost before = members@.map_values(|m: HashMap<u64, Member>| m@);
        let mut inner = match members.remove(&g) {
            Some(m) => m,
            None => HashMap::new(),
        };
        inner.insert(u, member);
        members.insert(g, inner);
        let ghost after = members@.map_values(|m: HashMap<u64, Member>| m@);
        proof {
            assert(after =~= before.insert(
                g,
                if before.contains_key(g) {
                    before[g].insert(u, member)
                } else {
                    Map::<u64, Member>::empty().insert(u, member)
                },
            ));
        }
        self.members = members;
    }

    /// A copy of the guild with id `id`, if held.
    pub fn guild(&self, id: GuildId) -> (r: Option<Guild>)
        ensures
            r == self.guild_map().get(id.0),
            r matches Some(g) ==> g.id == id,
            self.wf(),
    {
        proof {
            use_type_invariant(self);
        }
        match self.guilds.get(&id.0) {
            Some(g) => Some(g.clone()),
            None => None,
        }
    }

    /// A copy of the member of guild `guild_id` with user id `user_id`, if held.
    pub fn member(&self, guild_id: GuildId, user_id: UserId) -> (r: Option<Member>)
        ensures
            r == self.spec_member(guild_id.0, user_id.0),
            r matches Some(m) ==> m.guild_id == guild_id && m.user.id == user_id,
            self.wf(),
    {
        proof {
            use_type_invariant(self);
        }
        match self.members.get(&guild_id.0) {
            Some(inner) => match inner.get(&user_id.0) {
                Some(m) => Some(m.clone()),
                None => None,
            },
            None => None,
        }
    }

    /// The number of shards in use.
    pub fn shard_count(&self) -> (n: u64)
        ensures
            n == self.spec_shard_count(),
    {
        self.shard_count
    }
}

/// A guild stored in the cache is found there under its id.
pub proof fn law_guild_read_after_write(before: Cache, after: Cache, guild: Guild)
    requires
        after.guild_map() == before.guild_map().insert(guild.id.0, guild),
    ensures
        after.guild_map().get(guild.id.0) == Some(guild),
        forall|k: u64|
            k != guild.id.0 ==> #[trigger] after.guild_map().get(k) == before.guild_map().get(k),
{
}

/// A member stored in the cache is found there under its guild and user
/// id, and no other member changes.
pub proof fn law_member_read_after_write(before: Cache, after: Cache, member: Member)
    requires
        after.member_map() == before.member_map().insert(
            member.guild_id.0,
            if before.member_map().contains_key(member.guild_id.0) {
                before.member_map()[member.guild_id.0].insert(member.user.id.0, member)
            } else {
                Map::<u64, Member>::empty().insert(member.user.id.0, member)
            },
        ),
    ensures
        after.spec_member(member.guild_id.0, member.user.id.0) == Some(member),
        forall|g: u64, u: u64|
            !(g == member.guild_id.0 && u == member.user.id.0) ==> #[trigger] after.spec_member(
                g,
                u,
            ) == before.spec_member(g, u),
{
}

} // verus!
