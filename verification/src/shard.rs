use vstd::prelude::*;
use crate::cache::Cache;
use crate::id::GuildId;

verus! {

/// The shard that receives the events of a guild whose id is `guild_id`
/// when `shard_count` shards are in use: the id without its 22 low bits
/// (the creation timestamp), modulo the number of shards.
pub open spec fn shard_of(guild_id: u64, shard_count: u64) -> u64
    recommends
        shard_count > 0,
{
    ((guild_id as int / 4194304) % (shard_count as int)) as u64
}

proof fn lemma_shr22_is_div(x: u64)
    ensures
        x >> 22u64 == x / 4194304,
{
    assert(x >> 22u64 == x / 4194304) by (bit_vector);
}

/// The shard of a guild depends on its id's creation timestamp alone (the
/// bits above the 22 low ones): every guild created at timestamp `t` goes
/// to shard `t` modulo the number of shards.
pub proof fn law_shard_of_creation_time(t: u64, low: u64, shard_count: u64)
    requires
        low < 4194304,
        shard_count > 0,
        t * 4194304 + low <= u64::MAX,
    ensures
        shard_of((t * 4194304 + low) as u64, shard_count) == t % shard_count,
{
    assert((t * 4194304 + low) / 4194304 == t) by (nonlinear_arith)
        requires
            low < 4194304,
    ;
}

/// Whatever tells how many shards are in use: a count given directly, or
/// the cache, which keeps it.
pub trait ShardCountSource {
    /// The number of shards in use.
    spec fn spec_shard_total(&self) -> u64;

    /// The number of shards in use.
    fn shard_total(&self) -> (n: u64)
        ensures
            n == self.spec_shard_total(),
    ;
}

impl ShardCountSource for u64 {
    open spec fn spec_shard_total(&self) -> u64 {
        *self
    }

    fn shard_total(&self) -> (n: u64) {
        *self
    }
}

impl<'a> ShardCountSource for &'a Cache {
    open spec fn spec_shard_total(&self) -> u64 {
        self.spec_shard_count()
    }

    fn shard_total(&self) -> (n: u64) {
        self.shard_count()
    }
}

impl GuildId {
    /// Returns the id of the shard that receives the events of this guild,
    /// given the number of shards in use or the cache that knows it.
    pub fn shard_id<S: ShardCountSource>(self, shards: S) -> (shard: u64)
        requires
            shards.spec_shard_total() > 0,
        ensures
            shard == shard_of(self.0, shards.spec_shard_total()),
            shard < shards.spec_shard_total(),
    {
        let shard_count = shards.shard_total();
        proof {
            lemma_shr22_is_div(self.0);
        }
        (self.0 >> 22u64) % shard_count
    }
}

} // verus!
