use vstd::prelude::*;
use vstd::std_specs::convert::FromSpecImpl;
use crate::id::GuildId;
use crate::model::{Guild, GuildInfo, InviteGuild, PartialGuild};

verus! {

impl From<PartialGuild> for GuildId {
    /// The id of a partial guild.
    fn from(guild: PartialGuild) -> (id: GuildId) {
        guild.id
    }
}

impl FromSpecImpl<PartialGuild> for GuildId {
    open spec fn obeys_from_spec() -> bool {
        true
    }

    open spec fn from_spec(guild: PartialGuild) -> GuildId {
        guild.id
    }
}

impl<'a> From<&'a PartialGuild> for GuildId {
    /// The id of a partial guild.
    fn from(guild: &'a PartialGuild) -> (id: GuildId) {
        guild.id
    }
}

impl<'a> FromSpecImpl<&'a PartialGuild> for GuildId {
    open spec fn obeys_from_spec() -> bool {
        true
    }

    open spec fn from_spec(guild: &'a PartialGuild) -> GuildId {
        guild.id
    }
}

impl From<GuildInfo> for GuildId {
    /// The id of a guild summary.
    fn from(guild: GuildInfo) -> (id: GuildId) {
        guild.id
    }
}

impl FromSpecImpl<GuildInfo> for GuildId {
    open spec fn obeys_from_spec() -> bool {
        true
    }

    open spec fn from_spec(guild: GuildInfo) -> GuildId {
        guild.id
    }
}

impl<'a> From<&'a GuildInfo> for GuildId {
    /// The id of a guild summary.
    fn from(guild: &'a GuildInfo) -> (id: GuildId) {
        guild.id
    }
}

impl<'a> FromSpecImpl<&'a GuildInfo> for GuildId {
    open spec fn obeys_from_spec() -> bool {
        true
    }

    open spec fn from_spec(guild: &'a GuildInfo) -> GuildId {
        guild.id
    }
}

impl From<InviteGuild> for GuildId {
    /// The id of a invite's guild.
    fn from(guild: InviteGuild) -> (id: GuildId) {
        guild.id
    }
}

impl FromSpecImpl<InviteGuild> for GuildId {
    open spec fn obeys_from_spec() -> bool {
        true
    }

    open spec fn from_spec(guild: InviteGuild) -> GuildId {
        guild.id
    }
}

impl<'a> From<&'a InviteGuild> for GuildId {
    /// The id of a invite's guild.
    fn from(guild: &'a InviteGuild) -> (id: GuildId) {
        guild.id
    }
}

impl<'a> FromSpecImpl<&'a InviteGuild> for GuildId {
    open spec fn obeys_from_spec() -> bool {
        true
    }

    open spec fn from_spec(guild: &'a InviteGuild) -> GuildId {
        guild.id
    }
}

impl From<Guild> for GuildId {
    /// The id of a guild.
    fn from(guild: Guild) -> (id: GuildId) {
        guild.id
    }
}

impl FromSpecImpl<Guild> for GuildId {
    open spec fn obeys_from_spec() -> bool {
        true
    }

    open spec fn from_spec(guild: Guild) -> GuildId {
        guild.id
    }
}

impl<'a> From<&'a Guild> for GuildId {
    /// The id of a guild.
    fn from(guild: &'a Guild) -> (id: GuildId) {
        guild.id
    }
}

impl<'a> FromSpecImpl<&'a Guild> for GuildId {
    open spec fn obeys_from_spec() -> bool {
        true
    }

    open spec fn from_spec(guild: &'a Guild) -> GuildId {
        guild.id
    }
}

} // verus!
