use dld::common::config::LongHuangYunJi;
use dld::dw::tasks::long_huang_zhi_jing::{
    calc_max_exchange, find_claimable_rewards, martial_step, rewards_to_claim, shop_plan, ItemField,
    MartialStep, RewardField, ShopItem, ShopPlan, ShopStep,
};

#[test]
fn test_all_rewards_claimable() {
    // 36 bouts, no bit set: all five tiers
    assert_eq!(find_claimable_rewards(36, 0), vec![1, 2, 3, 4, 5]);
}

#[test]
fn test_partial_times() {
    // 18 bouts: the first three tiers
    assert_eq!(find_claimable_rewards(18, 0), vec![1, 2, 3]);
}

#[test]
fn test_times_below_minimum() {
    assert!(find_claimable_rewards(0, 0).is_empty());
}

#[test]
fn long_huang_zhi_jing_test_all_already_claimed() {
    // every bit set: all claimed
    assert!(find_claimable_rewards(36, 0b11111).is_empty());
}

#[test]
fn long_huang_zhi_jing_test_mixed_state() {
    // 36 bouts, tiers 1 and 3 claimed (bits 0 and 2): flag = 0b00101 = 5
    assert_eq!(find_claimable_rewards(36, 5), vec![2, 4, 5]);
}

#[test]
fn test_first_exchange_all_available() {
    assert_eq!(calc_max_exchange(10, 100, 100, 10000, 100), 10);
}

#[test]
fn test_already_exchanged_enough() {
    assert_eq!(calc_max_exchange(10, 100, 85, 10000, 100), 0);
}

#[test]
fn test_want_less_than_limit() {
    assert_eq!(calc_max_exchange(10, 100, 95, 10000, 100), 5);
}

#[test]
fn test_want_greater_than_limit() {
    assert_eq!(calc_max_exchange(100, 50, 50, 10000, 100), 50);
}

#[test]
fn test_score_insufficient() {
    assert_eq!(calc_max_exchange(10, 100, 100, 500, 100), 5);
}

#[test]
fn test_all_sold_out() {
    assert_eq!(calc_max_exchange(10, 100, 0, 10000, 100), 0);
}

#[test]
fn test_remain_exceeds_limit() {
    assert_eq!(calc_max_exchange(10, 100, 110, 10000, 100), 10);
}

#[test]
fn martial_steps_by_day_and_hour() {
    assert_eq!(martial_step("0", "3", 2, 2, 12), MartialStep::SignUp);
    assert_eq!(martial_step("0", "3", 2, 5, 12), MartialStep::Idle);
    assert_eq!(martial_step("1", "3", 2, 5, 12), MartialStep::Challenge);
    assert_eq!(martial_step("1", "0", 2, 5, 12), MartialStep::Idle);
    assert_eq!(martial_step("1", "3", 2, 5, 22), MartialStep::Idle);
    assert_eq!(martial_step("1", "3", 0, 5, 12), MartialStep::Idle);
    assert_eq!(martial_step("1", "3", 2, 26, 12), MartialStep::Idle);
    assert_eq!(martial_step("1", "3", 2, 27, 12), MartialStep::SeasonEnd);
}

#[test]
fn reward_fields() {
    assert_eq!(rewards_to_claim("x", "0"), Err(RewardField::Times));
    assert_eq!(rewards_to_claim("8", "y"), Err(RewardField::Flag));
    assert_eq!(rewards_to_claim("8", "1"), Ok(vec![2]));
}

fn item(name: &str, cost: &str, limit: &str, remain: &str) -> ShopItem {
    ShopItem {
        name: name.to_string(),
        id: "1".to_string(),
        cost: cost.to_string(),
        limit: limit.to_string(),
        remain: remain.to_string(),
    }
}

#[test]
fn realm_shop_plan() {
    let ex = LongHuangYunJi { huang_sui: 25, huang_huo: 1, long_yu: 3, lun_wu_quan: 0 };
    let items = vec![
        item("凰髓", "10", "100", "100"),
        item("凰火", "5", "16", "0"),
        item("龙玉", "0", "100", "100"),
        item("论武券", "1", "40", "40"),
        item("龙玉", "1", "100", "z"),
    ];
    match shop_plan(&ex, "300", &items) {
        ShopPlan::Steps(v) => assert_eq!(
            v,
            vec![
                ShopStep::Exchange { index: 0, tens: 2, ones: 5 },
                ShopStep::ZeroCost { index: 2 },
                ShopStep::BadField { index: 4, field: ItemField::Remain },
            ]
        ),
        other => panic!("unexpected: {other:?}"),
    }
    let none = LongHuangYunJi { huang_sui: 0, huang_huo: 0, long_yu: 0, lun_wu_quan: 0 };
    assert!(matches!(shop_plan(&none, "300", &items), ShopPlan::NothingWanted));
    assert!(matches!(shop_plan(&ex, "99", &items), ShopPlan::ScoreTooLow));
    assert!(matches!(shop_plan(&ex, "", &items), ShopPlan::BadScore));
}
