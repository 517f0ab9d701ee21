use vstd::prelude::*;

verus! {

/// The conditions that an event must meet to be collected. Each one that
/// is set must hold; one that is unset holds of every event.
#[derive(Clone, Copy, Debug, PartialEq, Eq)]
pub struct CollectorFilter {
    /// Only events from this guild.
    pub guild_id: Option<u64>,
    /// Only events from this channel.
    pub channel_id: Option<u64>,
    /// Only events by this user.
    pub author_id: Option<u64>,
    /// Stop after this many events were collected.
    pub collect_limit: Option<u32>,
}

/// The filter that collects every event.
pub open spec fn spec_unrestricted() -> CollectorFilter {
    CollectorFilter { guild_id: None, channel_id: None, author_id: None, collect_limit: None }
}

impl CollectorFilter {
    /// The filter that collects every event.
    pub fn unrestricted() -> (f: CollectorFilter)
        ensures
            f == spec_unrestricted(),
    {
        CollectorFilter { guild_id: None, channel_id: None, author_id: None, collect_limit: None }
    }
}

/// A request to wait for one message; the shard it listens on is attached
/// when it is started.
#[derive(Clone, Copy, Debug, PartialEq, Eq)]
pub struct CollectReply {
    pub filter: CollectorFilter,
}

/// A request to collect a stream of messages.
#[derive(Clone, Copy, Debug, PartialEq, Eq)]
pub struct MessageCollectorBuilder {
    pub filter: CollectorFilter,
}

/// A request to wait for one reaction.
#[derive(Clone, Copy, Debug, PartialEq, Eq)]
pub struct CollectReaction {
    pub filter: CollectorFilter,
}

/// A request to collect a stream of reactions.
#[derive(Clone, Copy, Debug, PartialEq, Eq)]
pub struct ReactionCollectorBuilder {
    pub filter: CollectorFilter,
}

} // verus!
