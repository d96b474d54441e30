use dld::common::config::MenPaiExchange;
use dld::dw::tasks::men_pai_yao_qing_sai::{
    parse_u8, shop_plan, shop_wanted, tournament_step, ShopItem, ShopPlan, ShopStep, TournamentStep,
};

#[test]
fn tournament_steps() {
    assert_eq!(tournament_step("1", "0", "0", ""), TournamentStep::SignUp);
    assert_eq!(tournament_step("1", "1", "1", "10"), TournamentStep::Idle);
    assert_eq!(tournament_step("0", "1", "0", "10"), TournamentStep::Idle);
    assert_eq!(tournament_step("0", "1", "1", "x"), TournamentStep::BadTimes);
    assert_eq!(tournament_step("0", "1", "1", "300"), TournamentStep::BadTimes);
    assert_eq!(tournament_step("0", "1", "1", "10"), TournamentStep::Fight { free: 5, shop: true });
    assert_eq!(tournament_step("0", "1", "1", "7"), TournamentStep::Fight { free: 2, shop: false });
    assert_eq!(tournament_step("0", "1", "1", "3"), TournamentStep::Fight { free: 0, shop: false });
}

#[test]
fn u8_parsing() {
    assert_eq!(parse_u8("255"), Some(255));
    assert_eq!(parse_u8("256"), None);
    assert_eq!(parse_u8("+7"), Some(7));
    assert_eq!(parse_u8("-1"), None);
}

#[test]
fn invitational_shop() {
    let ex = MenPaiExchange { lian_qi_shi: 12, men_pai_qiang_hua_shu: 20 };
    assert!(shop_wanted(&ex));
    let items = vec![
        ShopItem { t: "1".to_string(), name: "炼气石".to_string(), needs_num: "40".to_string() },
        ShopItem { t: "2".to_string(), name: "其他".to_string(), needs_num: "1".to_string() },
        ShopItem { t: "3".to_string(), name: "门派强化书".to_string(), needs_num: "0".to_string() },
        ShopItem { t: "4".to_string(), name: "门派强化书".to_string(), needs_num: "q".to_string() },
        ShopItem { t: "5".to_string(), name: "门派强化书".to_string(), needs_num: "10".to_string() },
    ];
    match shop_plan(&ex, "500", &items) {
        ShopPlan::Steps(v) => assert_eq!(
            v,
            vec![
                ShopStep::Exchange { index: 0, tens: 1, ones: 2 },
                ShopStep::ZeroPrice { index: 2 },
                ShopStep::BadPrice { index: 3 },
                ShopStep::Exchange { index: 4, tens: 0, ones: 2 },
            ]
        ),
        other => panic!("unexpected: {other:?}"),
    }
    let none = MenPaiExchange { lian_qi_shi: 0, men_pai_qiang_hua_shu: 0 };
    assert!(!shop_wanted(&none));
    assert!(matches!(shop_plan(&none, "500", &items), ShopPlan::NothingWanted));
    assert!(matches!(shop_plan(&ex, "39", &items), ShopPlan::ScoreTooLow));
    assert!(matches!(shop_plan(&ex, "n", &items), ShopPlan::BadScore));
}
