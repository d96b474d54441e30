use dld::dw::tasks::fen_xiang::{
    cooldown_secs, reward_plan, shareable, shares_used_up, tower_next, tower_start, AwardInfo, RewardPlan,
    ShareInfo, TowerNext, TowerStart,
};

#[test]
fn shares() {
    let infos = vec![
        ShareInfo { share_type: "a".to_string(), can_share: "1".to_string() },
        ShareInfo { share_type: "b".to_string(), can_share: "0".to_string() },
        ShareInfo { share_type: "c".to_string(), can_share: "1".to_string() },
    ];
    assert_eq!(shareable(&infos), vec![0, 2]);
    assert!(shares_used_up("5", "5"));
    assert!(!shares_used_up("4", "5"));
}

#[test]
fn cooldowns() {
    assert_eq!(cooldown_secs("3"), 3);
    assert_eq!(cooldown_secs("0"), 0);
    assert_eq!(cooldown_secs(""), 10);
    assert_eq!(cooldown_secs("18446744073709551615"), u64::MAX);
    assert_eq!(cooldown_secs("18446744073709551616"), 10);
}

#[test]
fn tower_starts() {
    assert_eq!(tower_start("2", "0/1"), TowerStart::EndAndStop);
    assert_eq!(tower_start("3", "1/1"), TowerStart::EndThenClimb);
    assert_eq!(tower_start("0", "0/1"), TowerStart::Stop);
    assert_eq!(tower_start("0", "1/1"), TowerStart::Climb);
    assert_eq!(tower_start("1", "0/1"), TowerStart::Climb);
}

#[test]
fn tower_steps() {
    assert_eq!(tower_next("2", "5"), TowerNext::End);
    assert_eq!(tower_next("1", "?"), TowerNext::BadLayer);
    assert_eq!(tower_next("1", "11"), TowerNext::Checkpoint);
    assert_eq!(tower_next("1", "1"), TowerNext::Checkpoint);
    assert_eq!(tower_next("1", "12"), TowerNext::Continue);
    assert_eq!(tower_next("1", "0"), TowerNext::Continue);
}

#[test]
fn share_rewards() {
    let infos = vec![
        AwardInfo { gift_type: "1".to_string(), get_award: "0".to_string() },
        AwardInfo { gift_type: "2".to_string(), get_award: "1".to_string() },
    ];
    match reward_plan("0", &infos) {
        RewardPlan::Claim(v) => assert_eq!(v, vec![1]),
        other => panic!("unexpected: {other:?}"),
    }
    assert!(matches!(reward_plan("1", &infos), RewardPlan::Reset));
    assert!(matches!(reward_plan("2", &infos), RewardPlan::Nothing));
}
