use dld::common::config::ChangMengExchange;
use dld::dw::tasks::jiang_hu_chang_meng::{
    calc_max_exchange, copy_kind, day_step, event_plan, jin_bi_shu, qi_yu, run_count, shang_dian,
    shi_jian_ri_zhi, shop_plan, zhan_dou, Attempt, Begin, CopyKind, DayStep, EventList, Goods,
    GoodsField, ShopPlan, ShopStep,
};

fn event(t: &str, info: &str) -> EventList {
    EventList { t: t.to_string(), info: info.to_string() }
}

fn begin(events: Vec<EventList>) -> Begin {
    Begin {
        result: String::new(),
        msg: String::new(),
        win: String::new(),
        choose: String::new(),
        cur_days: String::new(),
        max_days: String::new(),
        event_desc: String::new(),
        event_list: events,
    }
}

#[test]
fn test_calc_max_exchange_normal() {
    assert_eq!(calc_max_exchange(50, 50, 10, 10000, 100), 40);
}

#[test]
fn test_calc_max_exchange_capped_by_server() {
    assert_eq!(calc_max_exchange(50, 20, 0, 10000, 100), 20);
}

#[test]
fn test_calc_max_exchange_already_exchanged() {
    assert_eq!(calc_max_exchange(30, 50, 30, 10000, 100), 0);
}

#[test]
fn test_calc_max_exchange_limited_by_score() {
    assert_eq!(calc_max_exchange(50, 50, 0, 1000, 100), 10);
}

#[test]
fn test_calc_max_exchange_zero_price() {
    assert_eq!(calc_max_exchange(50, 50, 0, 10000, 0), 0);
}

#[test]
fn test_calc_max_exchange_num_exceeds_max() {
    assert_eq!(calc_max_exchange(50, 50, 60, 10000, 100), 0);
}

#[test]
fn test_battle_prefers_most_coins() {
    let data = begin(vec![
        event("1", ""),
        event("3", "第1战：市井混混 金币：60\n等级：20"),
        event("3", "第1战：市井混混 金币：80\n等级：30"),
    ]);
    assert_eq!(zhan_dou(&data), Some(3));
}

#[test]
fn test_battle_falls_back_to_any() {
    let data = begin(vec![event("1", ""), event("3", "普通战斗"), event("3", "普通战斗二")]);
    assert_eq!(zhan_dou(&data), Some(2));
}

#[test]
fn test_battle_none() {
    let data = begin(vec![event("1", "金币"), event("2", "")]);
    assert_eq!(zhan_dou(&data), None);
}

#[test]
fn test_battle_only_matches_battle_type() {
    let data = begin(vec![event("1", "第1战：市井混混 金币：99"), event("3", "第1战：市井混混 金币：60")]);
    assert_eq!(zhan_dou(&data), Some(2));
}

#[test]
fn test_battle_max_coins_within_info() {
    let data = begin(vec![event("3", "第1战：市井混混 金币：60\n第2战：市井混混 金币：80")]);
    assert_eq!(zhan_dou(&data), Some(1));
}

#[test]
fn test_coins_single() {
    assert_eq!(jin_bi_shu("第1战：市井混混 金币：60\n等级：20"), Some(60));
}

#[test]
fn test_coins_max() {
    assert_eq!(jin_bi_shu("第1战：金币：60\n第2战：金币：80"), Some(80));
}

#[test]
fn test_coins_none() {
    assert_eq!(jin_bi_shu("普通战斗"), None);
}

#[test]
fn test_coins_no_number() {
    assert_eq!(jin_bi_shu("金币："), None);
}

#[test]
fn coins_too_large_are_skipped() {
    assert_eq!(jin_bi_shu("金币：99999999999 金币：7"), Some(7));
}

#[test]
fn battle_ties_keep_the_first() {
    let data = begin(vec![event("3", "金币：50"), event("3", "金币：50")]);
    assert_eq!(zhan_dou(&data), Some(1));
}

#[test]
fn adventure_and_shop_events() {
    let data = begin(vec![event("3", ""), event("2", ""), event("1", ""), event("2", "")]);
    assert_eq!(qi_yu(&data), Some(3));
    assert_eq!(shang_dian(&data), Some(2));
    assert_eq!(qi_yu(&begin(vec![])), None);
}

#[test]
fn event_log_line() {
    assert_eq!(shi_jian_ri_zhi("柒承的忙碌日常", "3", "胜利"), "柒承的忙碌日常 => 第3天：胜利");
}

#[test]
fn copy_kinds_by_name() {
    assert_eq!(copy_kind("柒承的忙碌日常"), Some(CopyKind::QiCheng));
    assert_eq!(copy_kind("倚天屠龙归我心"), Some(CopyKind::YiTian));
    assert_eq!(copy_kind("绝世秘籍之争"), Some(CopyKind::JueShi));
    assert_eq!(copy_kind("别的"), None);
}

#[test]
fn run_count_rules() {
    assert_eq!(run_count(0, 5, "2"), 0);
    assert_eq!(run_count(3, 5, "1"), 3);
    assert_eq!(run_count(10, 4, "1"), 4);
    assert_eq!(run_count(10, 0, "2"), 1);
    assert_eq!(run_count(10, 0, "1"), 0);
}

fn state(win: &str, choose: &str, cur: &str, max: &str) -> Begin {
    let mut b = begin(vec![]);
    b.win = win.to_string();
    b.choose = choose.to_string();
    b.cur_days = cur.to_string();
    b.max_days = max.to_string();
    b
}

#[test]
fn day_steps() {
    assert_eq!(day_step(&state("1", "0", "3", "8")), DayStep::Lost);
    assert_eq!(day_step(&state("0", "0", "x", "8")), DayStep::BadCurDays);
    assert_eq!(day_step(&state("0", "0", "3", "")), DayStep::BadMaxDays);
    assert_eq!(day_step(&state("0", "0", "9", "8")), DayStep::Finished);
    assert_eq!(day_step(&state("0", "1", "3", "8")), DayStep::NextDay);
    assert_eq!(day_step(&state("0", "0", "0", "8")), DayStep::NextDay);
    assert_eq!(day_step(&state("0", "0", "3", "8")), DayStep::Events(3));
}

#[test]
fn plans_per_instance() {
    let data = begin(vec![event("1", ""), event("3", "金币：5"), event("2", "")]);
    assert_eq!(
        event_plan(CopyKind::QiCheng, &data, 2),
        vec![Attempt::Event(2), Attempt::Adventure(1, 2), Attempt::Event(3)]
    );
    assert_eq!(event_plan(CopyKind::YiTian, &data, 7), vec![Attempt::Adventure(1, 1), Attempt::Event(3)]);
    assert_eq!(event_plan(CopyKind::YiTian, &data, 8), vec![Attempt::Adventure(1, 3), Attempt::Event(3)]);
    assert_eq!(
        event_plan(CopyKind::YiTian, &data, 2),
        vec![Attempt::Event(2), Attempt::Adventure(1, 1), Attempt::Event(3)]
    );
    assert_eq!(event_plan(CopyKind::JueShi, &data, 3), vec![Attempt::Event(1), Attempt::Event(3)]);
    assert_eq!(event_plan(CopyKind::JueShi, &data, 4), vec![Attempt::AdventureTwice(1, 2), Attempt::Event(3)]);
    assert_eq!(event_plan(CopyKind::JueShi, &data, 5), vec![Attempt::Event(2), Attempt::Event(3)]);
    assert_eq!(event_plan(CopyKind::JueShi, &begin(vec![]), 5), vec![]);
}

fn goods(name: &str, price: &str, num: &str, max_num: &str) -> Goods {
    Goods {
        key_id: "k".to_string(),
        name: name.to_string(),
        price: price.to_string(),
        num: num.to_string(),
        max_num: max_num.to_string(),
    }
}

fn exchange(xuan_tie_ling: u32, shi_zhong_jian: u32) -> ChangMengExchange {
    ChangMengExchange {
        xuan_tie_ling,
        cui_huo_jie_jing: 0,
        shi_zhong_jian,
        da_xing_wu_qi_fu_zhou: 0,
        zhong_xing_wu_qi_fu_zhou: 0,
        xiao_xing_wu_qi_fu_zhou: 0,
        tou_zhi_wu_qi_fu_zhou: 0,
    }
}

#[test]
fn shop_plan_spends_the_score_in_order() {
    let list = vec![
        goods("玄铁令", "500", "0", "10"),
        goods("未知", "1", "0", "10"),
        goods("石中剑", "x", "0", "10"),
        goods("石中剑", "300", "0", "10"),
    ];
    match shop_plan(&exchange(3, 5), "1600", &list) {
        ShopPlan::Steps(v) => assert_eq!(
            v,
            vec![
                ShopStep::Exchange { index: 0, count: 3 },
                ShopStep::BadField { index: 2, field: GoodsField::Price },
            ]
        ),
        other => panic!("unexpected: {other:?}"),
    }
    assert!(matches!(shop_plan(&exchange(0, 0), "9999", &list), ShopPlan::NothingWanted));
    assert!(matches!(shop_plan(&exchange(1, 0), "abc", &list), ShopPlan::BadScore));
    assert!(matches!(shop_plan(&exchange(1, 0), "499", &list), ShopPlan::ScoreTooLow));
}
