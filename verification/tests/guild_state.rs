use serenity::collector::CollectorFilter;
use serenity::{
    Cache, ChannelId, Guild, GuildChannel, GuildId, GuildInfo, GuildWidgetStyle, InviteGuild,
    Member, MemberLookup, MembersAction, MembersIter, PartialGuild, Request, Role, RoleId, User,
    UserId,
};

fn member(guild: u64, user: u64) -> Member {
    Member {
        guild_id: GuildId(guild),
        user: User { id: UserId(user), name: format!("user{}", user), bot: false },
        nick: None,
    }
}

fn guild(id: u64, name: &str) -> Guild {
    Guild { id: GuildId(id), name: name.to_string(), owner_id: UserId(1), member_count: 0 }
}

#[test]
fn widget_image_url_in_each_style() {
    let g = GuildId(81384788765712384);
    assert_eq!(
        g.widget_image_url(GuildWidgetStyle::Shield),
        "https://discord.com/api/v10/guilds/81384788765712384/widget.png?style=shield"
    );
    assert_eq!(
        GuildId(0).widget_image_url(GuildWidgetStyle::Banner4),
        "https://discord.com/api/v10/guilds/0/widget.png?style=banner4"
    );
    assert_eq!(
        GuildId(u64::MAX).widget_image_url(GuildWidgetStyle::Banner2),
        format!("https://discord.com/api/v10/guilds/{}/widget.png?style=banner2", u64::MAX)
    );
}

#[test]
fn widget_style_names() {
    assert_eq!(GuildWidgetStyle::Shield.to_string(), "shield");
    assert_eq!(GuildWidgetStyle::Banner1.to_string(), "banner1");
    assert_eq!(GuildWidgetStyle::Banner2.to_string(), "banner2");
    assert_eq!(GuildWidgetStyle::Banner3.to_string(), "banner3");
    assert_eq!(GuildWidgetStyle::Banner4.to_string(), "banner4");
}

#[test]
fn decimal_matches_std() {
    for n in [0u64, 9, 10, 99, 100, 12345, 1 << 40, u64::MAX] {
        assert_eq!(serenity::decimal::to_decimal(n), n.to_string());
    }
}

#[test]
fn cache_lookups() {
    let mut cache = Cache::new(4);
    assert_eq!(GuildId(10).to_guild_cached(&cache), None);
    assert_eq!(GuildId(10).name(&cache), None);
    cache.insert_guild(guild(10, "Rust"));
    assert_eq!(GuildId(10).to_guild_cached(&cache), Some(guild(10, "Rust")));
    assert_eq!(GuildId(10).name(&cache), Some("Rust".to_string()));
    cache.insert_guild(guild(10, "Rust Community"));
    assert_eq!(GuildId(10).name(&cache), Some("Rust Community".to_string()));
    assert_eq!(GuildId(11).name(&cache), None);
}

#[test]
fn shard_id_by_cache_uses_its_count() {
    let cache = Cache::new(17);
    let g = GuildId(81384788765712384);
    assert_eq!(g.shard_id(&cache), 7);
    assert_eq!(g.shard_id(&cache), g.shard_id(17u64));
}

#[test]
fn member_prefers_the_cache() {
    let mut cache = Cache::new(1);
    cache.insert_member(member(5, 6));
    assert_eq!(GuildId(5).member(Some(&cache), UserId(6)), MemberLookup::Cached(member(5, 6)));
    assert_eq!(
        GuildId(5).member(Some(&cache), UserId(7)),
        MemberLookup::Fetch(Request::GetMember { guild_id: 5, user_id: 7 })
    );
    assert_eq!(
        GuildId(4).member(Some(&cache), UserId(6)),
        MemberLookup::Fetch(Request::GetMember { guild_id: 4, user_id: 6 })
    );
    assert_eq!(
        GuildId(5).member(None, UserId(6)),
        MemberLookup::Fetch(Request::GetMember { guild_id: 5, user_id: 6 })
    );
}

#[test]
fn channels_indexed_by_id_last_wins() {
    let ch = |id: u64, name: &str| GuildChannel {
        id: ChannelId(id),
        guild_id: GuildId(1),
        name: name.to_string(),
        position: 0,
    };
    let map = GuildId::collect_channels(vec![ch(1, "a"), ch(2, "b"), ch(1, "c")]);
    assert_eq!(map.len(), 2);
    assert_eq!(map.get(&1), Some(&ch(1, "c")));
    assert_eq!(map.get(&2), Some(&ch(2, "b")));
    assert!(GuildId::collect_channels(vec![]).is_empty());
}

#[test]
fn roles_indexed_by_id() {
    let role = |id: u64, position: i64| Role {
        id: RoleId(id),
        guild_id: GuildId(1),
        name: "r".to_string(),
        position,
    };
    let map = GuildId::collect_roles(vec![role(3, 1), role(4, 2)]);
    assert_eq!(map.len(), 2);
    assert_eq!(map.get(&3), Some(&role(3, 1)));
    assert_eq!(map.get(&4), Some(&role(4, 2)));
}

#[test]
fn collectors_filter_on_the_guild() {
    let g = GuildId(9);
    let f = CollectorFilter { guild_id: Some(9), channel_id: None, author_id: None, collect_limit: None };
    assert_eq!(g.await_reply().filter, f);
    assert_eq!(g.await_replies().filter, f);
    assert_eq!(g.await_reaction().filter, f);
    assert_eq!(g.await_reactions().filter, f);
}

#[test]
fn guild_id_from_guild_types() {
    let partial = PartialGuild { id: GuildId(1), name: "p".to_string(), owner_id: UserId(2) };
    let info = GuildInfo { id: GuildId(3), name: "i".to_string(), owner: true };
    let invite = InviteGuild { id: GuildId(4), name: "v".to_string() };
    let live = guild(5, "g");
    assert_eq!(GuildId::from(&partial), GuildId(1));
    assert_eq!(GuildId::from(&info), GuildId(3));
    assert_eq!(GuildId::from(&invite), GuildId(4));
    assert_eq!(GuildId::from(&live), GuildId(5));
    assert_eq!(GuildId::from(partial), GuildId(1));
    assert_eq!(GuildId::from(info), GuildId(3));
    assert_eq!(GuildId::from(invite), GuildId(4));
    assert_eq!(GuildId::from(live), GuildId(5));
}

fn drain(it: &mut MembersIter) -> Vec<u64> {
    let mut out = Vec::new();
    while let MembersAction::Yield(m) = it.step() {
        out.push(m.user.id.0);
    }
    out
}

#[test]
fn members_walk_pages_in_order() {
    let g = GuildId(2);
    let mut it = g.members_iter();
    assert_eq!(
        it.step(),
        MembersAction::Fetch(Request::GetGuildMembers { guild_id: 2, limit: Some(1000), after: None })
    );
    // A full page: the walk asks for the page after its thousandth member.
    it.refresh((1..=1000).map(|u| member(2, u)).collect());
    let first: Vec<u64> = drain_until_fetch(&mut it);
    assert_eq!(first, (1..=1000).collect::<Vec<u64>>());
    // A short page ends the walk once it is used up.
    it.refresh(vec![member(2, 1001), member(2, 1002)]);
    assert_eq!(drain(&mut it), vec![1001, 1002]);
    assert_eq!(it.step(), MembersAction::Finish);
}

fn drain_until_fetch(it: &mut MembersIter) -> Vec<u64> {
    let mut out = Vec::new();
    loop {
        match it.step() {
            MembersAction::Yield(m) => out.push(m.user.id.0),
            MembersAction::Fetch(r) => {
                assert_eq!(
                    r,
                    Request::GetGuildMembers { guild_id: 2, limit: Some(1000), after: Some(1000) }
                );
                return out;
            }
            MembersAction::Finish => panic!("the walk ended after a full page"),
        }
    }
}

#[test]
fn members_walk_of_empty_guild() {
    let mut it = MembersIter::new(GuildId(8));
    assert!(it.needs_refresh());
    it.refresh(vec![]);
    assert!(!it.needs_refresh());
    assert_eq!(it.step(), MembersAction::Finish);
    assert_eq!(it.next_member(), None);
}

#[test]
fn members_walk_failed_fetch_is_retried() {
    let mut it = GuildId(6).members_iter();
    let first = Request::GetGuildMembers { guild_id: 6, limit: Some(1000), after: None };
    assert_eq!(it.step(), MembersAction::Fetch(Request::GetGuildMembers { guild_id: 6, limit: Some(1000), after: None }));
    assert_eq!(it.after_fetch(Err::<Vec<Member>, &str>("timeout")), Some(Err("timeout")));
    assert_eq!(it.step(), MembersAction::Fetch(first));
    assert_eq!(it.after_fetch::<&str>(Ok(vec![member(6, 1), member(6, 2)])), Some(Ok(member(6, 1))));
    assert_eq!(it.step(), MembersAction::Yield(member(6, 2)));
    assert_eq!(it.step(), MembersAction::Finish);
}

#[test]
fn members_walk_empty_page_ends() {
    let mut it = GuildId(6).members_iter();
    assert!(matches!(it.step(), MembersAction::Fetch(_)));
    assert_eq!(it.after_fetch::<&str>(Ok(vec![])), None);
    assert_eq!(it.step(), MembersAction::Finish);
}

#[test]
fn members_walk_of_2500_members_makes_three_requests() {
    let all: Vec<u64> = (1..=2500).collect();
    let mut it = GuildId(6).members_iter();
    let mut requests = 0;
    let mut seen = Vec::new();
    loop {
        match it.step() {
            MembersAction::Fetch(Request::GetGuildMembers { after, limit, .. }) => {
                requests += 1;
                let limit = limit.unwrap() as usize;
                let start = match after { Some(a) => all.iter().position(|&u| u == a).unwrap() + 1, None => 0 };
                let page: Vec<Member> = all[start..(start + limit).min(all.len())].iter().map(|&u| member(6, u)).collect();
                match it.after_fetch::<&str>(Ok(page)) {
                    Some(Ok(m)) => seen.push(m.user.id.0),
                    Some(Err(_)) => unreachable!(),
                    None => break,
                }
            }
            MembersAction::Fetch(other) => panic!("unexpected request {:?}", other),
            MembersAction::Yield(m) => seen.push(m.user.id.0),
            MembersAction::Finish => break,
        }
    }
    assert_eq!(requests, 2500 / 1000 + 1);
    assert_eq!(seen, all);
}

#[test]
fn cached_guild_has_the_id_asked_for() {
    let mut cache = Cache::new(1);
    cache.insert_guild(guild(3, "three"));
    assert_eq!(GuildId(3).to_guild_cached(&cache).map(|g| g.id), Some(GuildId(3)));
}
