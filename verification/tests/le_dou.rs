use dld::dw::tasks::le_dou::{
    account_level, brother_npcs, companion_npcs, friend_targets, member_targets, npc_lv_ok, FriendInfo,
    MemberInfo,
};

#[test]
fn npc_thresholds() {
    assert!(!npc_lv_ok("9", 19));
    assert!(npc_lv_ok("9", 20));
    assert!(!npc_lv_ok("11", 29));
    assert!(npc_lv_ok("12", 40));
    assert!(!npc_lv_ok("16", 49));
    assert!(npc_lv_ok("33", 60));
    assert!(!npc_lv_ok("155", 89));
    assert!(!npc_lv_ok("156", 99));
    assert!(npc_lv_ok("156", 100));
    assert!(npc_lv_ok("1", 0));
}

#[test]
fn account_level_defaults_to_zero() {
    assert_eq!(account_level("57"), 57);
    assert_eq!(account_level(""), 0);
}

fn friend(uin: &str, enable: &str, player: bool) -> FriendInfo {
    FriendInfo {
        uin: uin.to_string(),
        enable: enable.to_string(),
        faceid: if player { Some("f".to_string()) } else { None },
    }
}

#[test]
fn friends_stop_at_first_player() {
    let info = vec![
        friend("9", "1", false),
        friend("11", "1", false),
        friend("2", "0", false),
        friend("3", "1", false),
        friend("100", "1", true),
        friend("4", "1", false),
    ];
    assert_eq!(friend_targets(&info, 25), vec![0, 3]);
}

fn member(fight: &str, player: bool) -> MemberInfo {
    MemberInfo {
        uin: "1".to_string(),
        fight: fight.to_string(),
        faceid: if player { Some("f".to_string()) } else { None },
    }
}

#[test]
fn members_skip_guardian_and_players() {
    let list = vec![member("1", false), member("1", false), member("0", false), member("1", true), member("1", false)];
    assert_eq!(member_targets(&list), vec![1]);
    assert!(member_targets(&vec![]).is_empty());
}

#[test]
fn brother_npcs_by_brotherhood() {
    assert_eq!(brother_npcs("0"), vec![17]);
    assert_eq!(brother_npcs("800"), vec![17, 18]);
    assert_eq!(brother_npcs("2500"), vec![17, 18, 153]);
    assert_eq!(brother_npcs("abc"), vec![17]);
    assert_eq!(companion_npcs(), vec![13, 15, 152]);
}
