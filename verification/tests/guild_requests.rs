use serenity::json::JsonValue;
use serenity::{
    AttachmentType, Role, RoleFollowUp, ChannelId, EmojiId, Error, GuildId, IntegrationId, ModelError, Request,
    RoleId, RuleId, UserId,
};

fn key(e: &(String, JsonValue)) -> &str {
    e.0.as_str()
}

#[test]
fn shard_id_of_documented_guild() {
    let guild_id = GuildId(81384788765712384);
    assert_eq!(guild_id.shard_id(17), 7);
}

#[test]
fn shard_id_is_below_shard_count() {
    for id in [0u64, 1, 4194303, 4194304, u64::MAX, 81384788765712384] {
        for count in 1u64..40 {
            let shard = GuildId(id).shard_id(count);
            assert!(shard < count);
            assert_eq!(shard, (id >> 22) % count);
        }
    }
}

#[test]
fn ban_refuses_more_than_seven_days() {
    let r = GuildId(1).ban(UserId(2), 8);
    assert_eq!(r, Err(Error::Model(ModelError::DeleteMessageDaysAmount(8))));
}

#[test]
fn ban_accepts_seven_days() {
    let r = GuildId(1).ban(UserId(2), 7);
    assert_eq!(
        r,
        Ok(Request::BanUser {
            guild_id: 1,
            user_id: 2,
            delete_message_days: 7,
            reason: String::new(),
        })
    );
}

#[test]
fn ban_with_reason_limits_reason_length() {
    let ok_reason = "é".repeat(512);
    let r = GuildId(3).ban_with_reason(UserId(4), 0, &ok_reason);
    assert_eq!(
        r,
        Ok(Request::BanUser {
            guild_id: 3,
            user_id: 4,
            delete_message_days: 0,
            reason: ok_reason.clone(),
        })
    );
    let long = "é".repeat(513);
    let r = GuildId(3).ban_with_reason(UserId(4), 0, &long);
    assert_eq!(r, Err(Error::ExceededLimit(long.clone(), 512)));
    // The number of days is checked before the reason.
    let r = GuildId(3).ban_with_reason(UserId(4), 9, &long);
    assert_eq!(r, Err(Error::Model(ModelError::DeleteMessageDaysAmount(9))));
}

#[test]
fn simple_requests_carry_the_guild_id() {
    let g = GuildId(7);
    assert_eq!(g.automod_rules(), Request::GetAutomodRules { guild_id: 7 });
    assert_eq!(g.automod_rule(RuleId(5)), Request::GetAutomodRule { guild_id: 7, rule_id: 5 });
    assert_eq!(g.delete_emoji(EmojiId(9)), Request::DeleteEmoji { guild_id: 7, emoji_id: 9 });
    assert_eq!(
        g.edit_role_position(RoleId(8), 2),
        Request::EditRolePosition { guild_id: 7, role_id: 8, position: 2 }
    );
    assert_eq!(
        g.members(Some(10), Some(UserId(3))),
        Ok(Request::GetGuildMembers { guild_id: 7, limit: Some(10), after: Some(3) })
    );
    assert_eq!(g.start_prune(30), Request::StartGuildPrune { guild_id: 7, days: 30 });
}

#[test]
fn create_emoji_body() {
    match GuildId(7).create_emoji("blob", "data:image/png;base64,AAAA") {
        Request::CreateEmoji { guild_id, map } => {
            assert_eq!(guild_id, 7);
            assert_eq!(map.len(), 2);
            assert_eq!(key(&map[0]), "name");
            assert_eq!(map[0].1, JsonValue::Str("blob".to_string()));
            assert_eq!(key(&map[1]), "image");
            assert_eq!(map[1].1, JsonValue::Str("data:image/png;base64,AAAA".to_string()));
        }
        other => panic!("unexpected request {:?}", other),
    }
}

#[test]
fn create_integration_body() {
    match GuildId(7).create_integration(IntegrationId(11), "twitch") {
        Request::CreateGuildIntegration { guild_id, integration_id, map } => {
            assert_eq!((guild_id, integration_id), (7, 11));
            assert_eq!(key(&map[0]), "id");
            assert_eq!(map[0].1, JsonValue::UInt(11));
            assert_eq!(key(&map[1]), "type");
            assert_eq!(map[1].1, JsonValue::Str("twitch".to_string()));
        }
        other => panic!("unexpected request {:?}", other),
    }
}

#[test]
fn move_and_disconnect_member_bodies() {
    match GuildId(1).move_member(UserId(2), ChannelId(3)) {
        Request::EditMember { guild_id, user_id, map } => {
            assert_eq!((guild_id, user_id), (1, 2));
            assert_eq!(map, vec![("channel_id".to_string(), JsonValue::UInt(3))]);
        }
        other => panic!("unexpected request {:?}", other),
    }
    match GuildId(1).disconnect_member(UserId(2)) {
        Request::EditMember { map, .. } => {
            assert_eq!(map, vec![("channel_id".to_string(), JsonValue::Null)]);
        }
        other => panic!("unexpected request {:?}", other),
    }
}

#[test]
fn prune_count_body() {
    assert_eq!(
        GuildId(1).prune_count(7),
        Request::GetGuildPruneCount {
            guild_id: 1,
            map: vec![("days".to_string(), JsonValue::UInt(7))],
        }
    );
}

#[test]
fn reorder_channels_sends_ids_as_strings() {
    let r = GuildId(5).reorder_channels(vec![(ChannelId(81384788765712384), 0), (ChannelId(9), 1)]);
    let expected = JsonValue::Array(vec![
        JsonValue::Object(vec![
            ("id".to_string(), JsonValue::Str("81384788765712384".to_string())),
            ("position".to_string(), JsonValue::UInt(0)),
        ]),
        JsonValue::Object(vec![
            ("id".to_string(), JsonValue::Str("9".to_string())),
            ("position".to_string(), JsonValue::UInt(1)),
        ]),
    ]);
    assert_eq!(r, Request::EditGuildChannelPositions { guild_id: 5, value: expected });
    assert_eq!(
        GuildId(5).reorder_channels(vec![]),
        Request::EditGuildChannelPositions { guild_id: 5, value: JsonValue::Array(vec![]) }
    );
}

#[test]
fn create_role_moves_role_when_position_given() {
    let g = GuildId(2);
    let map = vec![
        ("name".to_string(), JsonValue::Str("mods".to_string())),
        ("position".to_string(), JsonValue::UInt(4)),
    ];
    assert_eq!(GuildId::requested_position(&map), Some(4));
    let no_position = vec![("name".to_string(), JsonValue::Str("mods".to_string()))];
    assert_eq!(GuildId::requested_position(&no_position), None);
    let negative = vec![("position".to_string(), JsonValue::Int(-1))];
    assert_eq!(GuildId::requested_position(&negative), None);
    let signed = vec![("position".to_string(), JsonValue::Int(3))];
    assert_eq!(GuildId::requested_position(&signed), Some(3));
    let not_a_number = vec![("position".to_string(), JsonValue::Str("4".to_string()))];
    assert_eq!(GuildId::requested_position(&not_a_number), None);
    let first_wins = vec![
        ("position".to_string(), JsonValue::UInt(1)),
        ("position".to_string(), JsonValue::UInt(2)),
    ];
    assert_eq!(GuildId::requested_position(&first_wins), Some(1));
    let same = vec![
        ("name".to_string(), JsonValue::Str("mods".to_string())),
        ("position".to_string(), JsonValue::UInt(4)),
    ];
    assert_eq!(g.create_role(map), Request::CreateRole { guild_id: 2, map: same });
}

#[test]
fn create_sticker_needs_a_file() {
    let g = GuildId(3);
    assert_eq!(
        g.create_sticker(vec![], None),
        Err(Error::Model(ModelError::NoStickerFileSet))
    );
    let file = AttachmentType::Path("./sticker.png".to_string());
    assert_eq!(
        g.create_sticker(vec![], Some(file.clone())),
        Ok(Request::CreateSticker { guild_id: 3, map: vec![], file })
    );
}

#[test]
fn edit_nickname_none_resets() {
    assert_eq!(
        GuildId(1).edit_nickname(None),
        Request::EditNickname { guild_id: 1, nickname: None }
    );
    assert_eq!(
        GuildId(1).edit_nickname(Some("bob")),
        Request::EditNickname { guild_id: 1, nickname: Some("bob".to_string()) }
    );
}

#[test]
fn edit_keeps_the_id() {
    let mut g = GuildId(12);
    let r = g.edit(vec![]);
    assert_eq!(r, Request::EditGuild { guild_id: 12, map: vec![] });
    assert_eq!(g, GuildId(12));
}

#[test]
fn members_limit_must_be_one_to_a_thousand() {
    let g = GuildId(4);
    for l in [0u64, 1001, u64::MAX] {
        assert_eq!(
            g.members(Some(l), None),
            Err(Error::NotInRange("limit".to_string(), l, 1, 1000))
        );
    }
    for l in [1u64, 500, 1000] {
        assert_eq!(
            g.members(Some(l), None),
            Ok(Request::GetGuildMembers { guild_id: 4, limit: Some(l), after: None })
        );
    }
    assert_eq!(
        g.members(None, None),
        Ok(Request::GetGuildMembers { guild_id: 4, limit: None, after: None })
    );
}

fn role(id: u64) -> Role {
    Role { id: RoleId(id), guild_id: GuildId(2), name: "mods".to_string(), position: 0 }
}

#[test]
fn create_role_follow_up_moves_only_a_created_role() {
    let g = GuildId(2);
    let failed: Result<Role, &str> = Err("forbidden");
    assert_eq!(g.create_role_follow_up(Some(4), failed), RoleFollowUp::Done(Err("forbidden")));
    assert_eq!(
        g.create_role_follow_up::<&str>(Some(4), Ok(role(77))),
        RoleFollowUp::Move {
            role: role(77),
            request: Request::EditRolePosition { guild_id: 2, role_id: 77, position: 4 },
        }
    );
    assert_eq!(
        g.create_role_follow_up::<&str>(None, Ok(role(77))),
        RoleFollowUp::Done(Ok(role(77)))
    );
}

#[test]
fn create_role_finish_reports_a_failed_move() {
    assert_eq!(GuildId::create_role_finish::<(), &str>(role(5), Ok(())), Ok(role(5)));
    assert_eq!(GuildId::create_role_finish::<(), &str>(role(5), Err("bad")), Err("bad"));
}
