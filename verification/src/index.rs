use vstd::prelude::*;
use std::collections::HashMap;
use crate::id::GuildId;
use crate::model::{GuildChannel, Role};

verus! {

broadcast use vstd::std_specs::hash::group_hash_axioms;

/// Whatever is listed by an id: channels and roles.
pub trait Keyed {
    /// The numeric value of the id.
    spec fn key(&self) -> u64;

    /// The numeric value of the id.
    fn key_value(&self) -> (k: u64)
        ensures
            k == self.key(),
    ;
}

impl Keyed for GuildChannel {
    open spec fn key(&self) -> u64 {
        self.id.0
    }

    fn key_value(&self) -> (k: u64) {
        self.id.0
    }
}

impl Keyed for Role {
    open spec fn key(&self) -> u64 {
        self.id.0
    }

    fn key_value(&self) -> (k: u64) {
        self.id.0
    }
}

/// The items of `s` by the numeric value of their id; where two items
/// share an id, the later one is kept.
pub open spec fn index_by_id<T: Keyed>(s: Seq<T>) -> Map<u64, T>
    decreases s.len(),
{
    if s.len() == 0 {
        Map::empty()
    } else {
        index_by_id(s.drop_last()).insert(s.last().key(), s.last())
    }
}

fn collect_by_id<T: Keyed>(items: Vec<T>) -> (m: HashMap<u64, T>)
    ensures
        m@ == index_by_id(items@),
{
    let mut map: HashMap<u64, T> = HashMap::new();
    let ghost all = items@;
    for item in it: items
        invariant
            it.seq() == all,
            map@ == index_by_id(all.take(it.index() as int)),
    {
        proof {
            assert(all.take(it.index() + 1 as int).drop_last() =~= all.take(it.index() as int));
        }
        let key = item.key_value();
        map.insert(key, item);
    }
    proof {
        assert(all.take(all.len() as int) =~= all);
    }
    map
}

impl GuildId {
    /// Indexes the channels that the guild's channel list request brought
    /// back by their id.
    pub fn collect_channels(channels: Vec<GuildChannel>) -> (m: HashMap<u64, GuildChannel>)
        ensures
            m@ == index_by_id(channels@),
            forall|k: u64| #[trigger] m@.contains_key(k) <==> exists|i: int|
                0 <= i < channels@.len() && channels@[i].id.0 == k,
            forall|i: int|
                0 <= i < channels@.len() && (forall|j: int|
                    i < j < channels@.len() ==> channels@[j].id.0 != channels@[i].id.0)
                    ==> #[trigger] m@[channels@[i].id.0] == channels@[i],
    {
        proof {
            law_channels_by_id(channels@);
        }
        collect_by_id(channels)
    }

    /// Indexes the roles that the guild's role list request brought back
    /// by their id.
    pub fn collect_roles(roles: Vec<Role>) -> (m: HashMap<u64, Role>)
        ensures
            m@ == index_by_id(roles@),
            forall|k: u64| #[trigger] m@.contains_key(k) <==> exists|i: int|
                0 <= i < roles@.len() && roles@[i].id.0 == k,
            forall|i: int|
                0 <= i < roles@.len() && (forall|j: int|
                    i < j < roles@.len() ==> roles@[j].id.0 != roles@[i].id.0)
                    ==> #[trigger] m@[roles@[i].id.0] == roles@[i],
    {
        proof {
            law_roles_by_id(roles@);
        }
        collect_by_id(roles)
    }
}

/// The map of a list by id holds exactly the ids of the listed items, and
/// for each id the last item listed with it.
pub proof fn law_index_by_id<T: Keyed>(s: Seq<T>)
    ensures
        forall|k: u64| #[trigger] index_by_id(s).contains_key(k) <==> exists|i: int|
            0 <= i < s.len() && s[i].key() == k,
        forall|i: int|
            0 <= i < s.len() && (forall|j: int| i < j < s.len() ==> s[j].key() != s[i].key())
                ==> #[trigger] index_by_id(s)[s[i].key()] == s[i],
    decreases s.len(),
{
    if s.len() > 0 {
        let t = s.drop_last();
        law_index_by_id(t);
        assert(index_by_id(s) == index_by_id(t).insert(s.last().key(), s.last()));
        assert forall|k: u64| #[trigger] index_by_id(s).contains_key(k) <==> exists|i: int|
            0 <= i < s.len() && s[i].key() == k by {
            if index_by_id(s).contains_key(k) && k != s.last().key() {
                assert(index_by_id(t).contains_key(k));
                let i = choose|i: int| 0 <= i < t.len() && t[i].key() == k;
                assert(s[i].key() == k);
            }
            if exists|i: int| 0 <= i < s.len() && s[i].key() == k {
                let i = choose|i: int| 0 <= i < s.len() && s[i].key() == k;
                if i < t.len() {
                    assert(t[i].key() == k);
                }
            }
        }
        assert forall|i: int|
            0 <= i < s.len() && (forall|j: int| i < j < s.len() ==> s[j].key() != s[i].key())
                implies #[trigger] index_by_id(s)[s[i].key()] == s[i] by {
            if i < t.len() {
                assert(s[s.len() - 1].key() != s[i].key());
                assert forall|j: int| i < j < t.len() implies t[j].key() != t[i].key() by {
                    assert(s[j] == t[j]);
                }
                assert(index_by_id(t)[t[i].key()] == t[i]);
            }
        }
    }
}

/// The index of a channel list holds a channel id exactly when some
/// listed channel has it, and under each id the last channel listed with
/// that id.
pub proof fn law_channels_by_id(s: Seq<GuildChannel>)
    ensures
        forall|k: u64| #[trigger] index_by_id(s).contains_key(k) <==> exists|i: int|
            0 <= i < s.len() && s[i].id.0 == k,
        forall|i: int|
            0 <= i < s.len() && (forall|j: int| i < j < s.len() ==> s[j].id.0 != s[i].id.0)
                ==> #[trigger] index_by_id(s)[s[i].id.0] == s[i],
{
    law_index_by_id(s);
    assert forall|i: int| 0 <= i < s.len() implies #[trigger] s[i].key() == s[i].id.0 by {}
    assert forall|k: u64| #[trigger] index_by_id(s).contains_key(k) <==> exists|i: int|
        0 <= i < s.len() && s[i].id.0 == k by {
        if index_by_id(s).contains_key(k) {
            let i = choose|i: int| 0 <= i < s.len() && s[i].key() == k;
            assert(s[i].id.0 == k);
        }
        if exists|i: int| 0 <= i < s.len() && s[i].id.0 == k {
            let i = choose|i: int| 0 <= i < s.len() && s[i].id.0 == k;
            assert(s[i].key() == k);
        }
    }
    assert forall|i: int|
        0 <= i < s.len() && (forall|j: int| i < j < s.len() ==> s[j].id.0 != s[i].id.0)
            implies #[trigger] index_by_id(s)[s[i].id.0] == s[i] by {
        assert forall|j: int| i < j < s.len() implies s[j].key() != s[i].key() by {
            assert(s[j].key() == s[j].id.0);
        }
    }
}

/// The index of a role list holds a role id exactly when some listed role
/// has it, and under each id the last role listed with that id.
pub proof fn law_roles_by_id(s: Seq<Role>)
    ensures
        forall|k: u64| #[trigger] index_by_id(s).contains_key(k) <==> exists|i: int|
            0 <= i < s.len() && s[i].id.0 == k,
        forall|i: int|
            0 <= i < s.len() && (forall|j: int| i < j < s.len() ==> s[j].id.0 != s[i].id.0)
                ==> #[trigger] index_by_id(s)[s[i].id.0] == s[i],
{
    law_index_by_id(s);
    assert forall|i: int| 0 <= i < s.len() implies #[trigger] s[i].key() == s[i].id.0 by {}
    assert forall|k: u64| #[trigger] index_by_id(s).contains_key(k) <==> exists|i: int|
        0 <= i < s.len() && s[i].id.0 == k by {
        if index_by_id(s).contains_key(k) {
            let i = choose|i: int| 0 <= i < s.len() && s[i].key() == k;
            assert(s[i].id.0 == k);
        }
        if exists|i: int| 0 <= i < s.len() && s[i].id.0 == k {
            let i = choose|i: int| 0 <= i < s.len() && s[i].id.0 == k;
            assert(s[i].key() == k);
        }
    }
    assert forall|i: int|
        0 <= i < s.len() && (forall|j: int| i < j < s.len() ==> s[j].id.0 != s[i].id.0)
            implies #[trigger] index_by_id(s)[s[i].id.0] == s[i] by {
        assert forall|j: int| i < j < s.len() implies s[j].key() != s[i].key() by {
            assert(s[j].key() == s[j].id.0);
        }
    }
}

} // verus!
