use dld::common::config::{DuiHuanShangDian, JiaoYiHuiSuo, KuangDongFloor, KuangDongFuBen, KuangDongMode, LiLianBoss};
use dld::dw::tasks::bai_pai_ji_tan::{altar_step, altar_targets, AltarStep};
use dld::dw::tasks::bang_pai_shang_hui::{exchanges_to_make, trade_item, trades_to_make, ExchangeInfo, TradeInfo};
use dld::dw::tasks::bei_bao::{boxes, pouches, use_count, BagItem};
use dld::dw::tasks::biao_xing_tian_xia::{
    cargo_visit, intercept_outcome, intercept_targets, should_reselect, CargoVisit, InterceptOutcome, Passerby,
};
use dld::dw::tasks::cai_dan_shuang::{game_open, game_over, guesses};
use dld::dw::tasks::deng_lu_shang_dian::{login_shop, LoginShop, ShopGood};
use dld::dw::tasks::deng_lu_you_li::{first_claimable_gift, gift_page, GiftPage};
use dld::dw::tasks::dian_feng_zhi_zhan::{gvg_step, GvgStep};
use dld::dw::tasks::dou_jing_tan_mi::{first_claimable, DayReward};
use dld::dw::tasks::dui_huan_ma::redeem_command;
use dld::dw::tasks::fei_sheng::{seasons_to_claim, solo_signup, token_bought, Season, SoloSignup};
use dld::dw::tasks::hao_jie_bao_xiang::{activities, chest_unclaimed};
use dld::dw::tasks::hao_xia_chu_shi::unclaimed_gifts;
use dld::dw::tasks::hua_juan_mi_zong::{free_attempt, maze_goes_on};
use dld::dw::tasks::hua_shan_lun_jian::knight_arena_step;
use dld::dw::tasks::huan_jing::{fight_goes_on, misty_step, open_chests, Chest, MistyStep};
use dld::dw::tasks::hui_wu::{melee_phase, open_scenes, scene_check, scroll_exchange, trial_next, MeleePhase, Scene, SceneCheck, TrialNext};
use dld::dw::tasks::hui_zhang_zhan_ling::{badge_page, gift_unclaimed, refusal_line, BadgePage};
use dld::dw::tasks::huo_yue_li_bao::{bags_to_claim, claim_logged};
use dld::dw::tasks::ji_yun_pai::cards_to_turn;
use dld::dw::tasks::jie_bai::{battle_step, bro_step, teams_with_coins, BattleStep, BroStep, Team};
use dld::dw::tasks::jing_ji_chang::{arena_step, daily_reward_plan, ArenaStep};
use dld::dw::tasks::kuang_dong::{mine_step, start_command, MineStep};
use dld::dw::tasks::le_dou_cai_dan::dishes_to_order;
use dld::dw::tasks::le_dou_huang_li::should_divine;
use dld::dw::tasks::le_dou_yi_zhan::award_unclaimed;
use dld::dw::tasks::le_dou_you_ji::{claimable_tasks, overflow_exchange, JournalTask, OverflowExchange};
use dld::dw::tasks::li_lian::{boss_maps, li_lian_mode, BossRound, LiLianMode};
use dld::dw::tasks::ling_qu_tu_di::claim_apprentice_exp;
use dld::dw::tasks::mei_ri_bao_xiang::chests_to_open;
use dld::dw::tasks::meng_xiang_zhi_lv::{dream_trips, places_with_status, Place};
use dld::dw::tasks::page::{page_check, with_status, Entry, PageCheck};
use dld::dw::tasks::qiang_di_pan::{free_attack_left, manor_hours, manor_step, ManorStep};
use dld::dw::tasks::qun_xiong_zhu_lu::{thrones_step, ThronesStep};
use dld::dw::tasks::ren_wu_pai_qian::{
    can_take_more, candidates, dispatched, done_missions, free_refresh, started, AcceptedMission, StandbyMission,
};
use dld::dw::tasks::report::{find_report, Report};

fn s(x: &str) -> String {
    x.to_string()
}

#[test]
fn altar() {
    assert_eq!(altar_step("0", "0", "0"), AltarStep::Stop);
    assert_eq!(altar_step("1", "0", "2"), AltarStep::Claim);
    assert_eq!(altar_step("0", "1003", "0"), AltarStep::Rob);
    assert_eq!(altar_step("0", "1004", "0"), AltarStep::Steal);
    assert_eq!(altar_step("2", "0", "0"), AltarStep::Spin);
    assert_eq!(altar_targets(&vec![s("r1"), s("r2")], "x", &vec![s("e1")]), vec!["r1", "r2", "x", "e1"]);
    assert_eq!(altar_targets(&vec![], "", &vec![s("e1")]), vec!["e1"]);
}

#[test]
fn commerce() {
    let mut h = JiaoYiHuiSuo::default();
    h.huan_hun_dan = true;
    let infos = vec![
        TradeInfo { tips: s("教主想要还魂丹*20，他将返回"), goods_id: s("1"), is_traded: s("0"), t: s("a") },
        TradeInfo { tips: s("教主想要还魂丹*20，他将返回"), goods_id: s("2"), is_traded: s("1"), t: s("a") },
        TradeInfo { tips: s("教主想要孟婆汤*20，他将返回"), goods_id: s("3"), is_traded: s("0"), t: s("a") },
    ];
    assert_eq!(trades_to_make(&h, &infos), vec![0]);
    assert_eq!(trade_item("教主想要还魂丹*20，他将返回给你200商会银币"), "还魂丹*20");
    assert_eq!(trade_item("没有"), "没有");
    let shop = DuiHuanShangDian(vec![s("a"), s("b")]);
    let ex = vec![
        ExchangeInfo { type_id: s("1"), goods_name: s("a"), is_exchanged: s("0") },
        ExchangeInfo { type_id: s("2"), goods_name: s("b"), is_exchanged: s("1") },
        ExchangeInfo { type_id: s("3"), goods_name: s("c"), is_exchanged: s("0") },
    ];
    assert_eq!(exchanges_to_make(&shop, &ex), vec![0]);
}

#[test]
fn bag() {
    let bag = vec![
        BagItem { id: s("1"), name: s("锦囊"), num: s("2"), storage: s("5") },
        BagItem { id: s("2"), name: s("黄金宝箱"), num: s("1"), storage: s("1") },
        BagItem { id: s("3"), name: s("美味食盒"), num: s("x"), storage: s("1") },
        BagItem { id: s("4"), name: s("宝箱钥匙"), num: s("1"), storage: s("1") },
    ];
    assert_eq!(pouches(&bag), vec![0]);
    assert_eq!(boxes(&bag), vec![1, 2]);
    assert_eq!(use_count("2"), Some(2));
    assert_eq!(use_count("x"), None);
}

#[test]
fn escort() {
    assert_eq!(cargo_visit("1", "2", "0", "3"), CargoVisit { claim: true, escort: true, intercept: false });
    assert_eq!(cargo_visit("0", "2", "1", "1"), CargoVisit { claim: false, escort: false, intercept: true });
    assert!(should_reselect("0", "1"));
    assert!(!should_reselect("0", "0"));
    assert!(!should_reselect("1", "1"));
    let list = vec![
        Passerby { passerby_uin: s("9"), escort_npc_name: s("蔡八斗") },
        Passerby { passerby_uin: s("1"), escort_npc_name: s("x") },
        Passerby { passerby_uin: s("2"), escort_npc_name: s("y") },
    ];
    assert_eq!(intercept_targets(&list, "1"), vec![2]);
    assert_eq!(intercept_outcome("0", "3"), InterceptOutcome::Won { last: true });
    assert_eq!(intercept_outcome("0", "1"), InterceptOutcome::Won { last: false });
    assert_eq!(intercept_outcome("-1", "1"), InterceptOutcome::Busy);
    assert_eq!(intercept_outcome("-2", "1"), InterceptOutcome::Refused);
}

#[test]
fn small_events() {
    assert!(game_open("0", 0));
    assert!(!game_open("0", 1));
    assert!(game_over("1"));
    assert_eq!(guesses(), vec!["1", "2", "1", "2", "1"]);
    let goods = vec![ShopGood { name: s("a"), t: s("1") }, ShopGood { name: s("b"), t: s("2") }];
    assert_eq!(login_shop("5", &goods, "b"), LoginShop::Exchange(1));
    assert_eq!(login_shop("5", &goods, "c"), LoginShop::NotFound);
    assert_eq!(login_shop("0", &goods, "a"), LoginShop::NoScore);
    assert_eq!(gift_page("-102"), GiftPage::Closed);
    assert_eq!(gift_page("-1"), GiftPage::Refused);
    assert_eq!(gift_page("0"), GiftPage::Open);
    assert_eq!(first_claimable_gift(&vec![2, 3, 1, 1]), Some(2));
    assert_eq!(first_claimable_gift(&vec![2, 3]), None);
    assert_eq!(redeem_command("161616"), "cmd=weixin&sub=1&cdkey=161616");
    assert_eq!(activities(), vec![(142, 143), (151, 152)]);
    assert!(chest_unclaimed("0"));
    assert_eq!(unclaimed_gifts(&vec![(1, 0), (2, 1), (3, 0)]), vec![1, 3]);
    assert!(free_attempt("1"));
    assert!(maze_goes_on("0", "胜利"));
    assert!(!maze_goes_on("0", "弱爆了，你输了"));
    assert!(!maze_goes_on("1", "胜利"));
    assert_eq!(badge_page("-1"), BadgePage::Closed);
    assert_eq!(badge_page("3"), BadgePage::Refused);
    assert_eq!(refusal_line("3"), "ret=3");
    assert!(gift_unclaimed("0"));
    assert_eq!(bags_to_claim("0", "1"), (true, false));
    assert!(!claim_logged("当前不在活动时间!"));
    assert!(claim_logged("您活跃度不足50点！"));
    assert_eq!(cards_to_turn("3"), Some(3));
    assert_eq!(cards_to_turn(""), None);
    assert!(should_divine("2", ""));
    assert!(!should_divine("0", ""));
    assert!(!should_divine("2", "大吉"));
    assert!(award_unclaimed("0"));
    assert_eq!(chests_to_open("61", "x", "24"), [(2, 2), (0, 1), (1, 0)]);
    assert!(claim_apprentice_exp("1", &vec![s("1"), s("0")]));
    assert!(!claim_apprentice_exp("1", &vec![s("1")]));
    assert!(!claim_apprentice_exp("0", &vec![s("0")]));
    assert_eq!(thrones_step("2", "1"), ThronesStep::Reward);
    assert_eq!(thrones_step("0", "1"), ThronesStep::SignUp);
    assert_eq!(thrones_step("0", "0"), ThronesStep::Idle);
}

#[test]
fn summit_and_tournaments() {
    assert_eq!(gvg_step("1", "0", "0", "0", "0"), GvgStep::SignUp);
    assert_eq!(gvg_step("1", "2", "0", "0", "0"), GvgStep::Idle);
    assert_eq!(gvg_step("2", "2", "0", "0", "0"), GvgStep::Campaign);
    assert_eq!(gvg_step("2", "2", "1", "0", "0"), GvgStep::Idle);
    assert_eq!(gvg_step("2", "2", "0", "1", "2"), GvgStep::Idle);
    assert_eq!(gvg_step("2", "0", "0", "0", "0"), GvgStep::Idle);
    assert_eq!(bro_step("1", "0", "1", "0"), BroStep::Nothing);
    assert_eq!(bro_step("0", "0", "1", "1"), BroStep::Signed);
    assert_eq!(bro_step("0", "0", "1", "0"), BroStep::SignUp);
    assert_eq!(bro_step("0", "0", "0", "0"), BroStep::Battle);
    assert_eq!(battle_step("1", "0"), BattleStep::Cheer);
    assert_eq!(battle_step("1", "1"), BattleStep::Nothing);
    assert_eq!(battle_step("0", "1"), BattleStep::Rewards);
    let teams = vec![Team { uin: s("1"), remain_money: s("0") }, Team { uin: s("2"), remain_money: s("5") }];
    assert_eq!(teams_with_coins(&teams), vec![1]);
    assert_eq!(arena_step("1", "5", "3"), ArenaStep::RankReward);
    assert_eq!(arena_step("0", "5", "3"), ArenaStep::InSeason);
    assert_eq!(arena_step("0", "-1", "3"), ArenaStep::Challenge(3));
    assert_eq!(arena_step("0", "-1", "z"), ArenaStep::BadTimes);
    assert_eq!(knight_arena_step("0", "-1", "2"), ArenaStep::Challenge(2));
    assert_eq!(daily_reward_plan("1", true), (true, true));
    assert_eq!(daily_reward_plan("1", false), (true, false));
    assert_eq!(daily_reward_plan("0", true), (false, false));
}

#[test]
fn dream_and_days() {
    let today = vec![
        DayReward { id: s("1"), day: s("2"), status: s("1") },
        DayReward { id: s("2"), day: s("3"), status: s("0") },
        DayReward { id: s("3"), day: s("3"), status: s("1") },
    ];
    assert_eq!(first_claimable(&today, "3"), Some(2));
    assert_eq!(first_claimable(&today, "4"), None);
    let places = vec![
        Place { id: s("1"), status: s("0") },
        Place { id: s("2"), status: s("1") },
        Place { id: s("3"), status: s("0") },
    ];
    assert_eq!(places_with_status(&places, "1"), vec![1]);
    assert_eq!(dream_trips("5", 3, &places), Some(vec![0, 2]));
    assert_eq!(dream_trips("2", 3, &places), Some(vec![]));
    assert_eq!(dream_trips("5", 1, &places), Some(vec![]));
    assert_eq!(dream_trips("", 3, &places), None);
}

#[test]
fn ascension() {
    assert_eq!(solo_signup("0"), SoloSignup::Signed);
    assert_eq!(solo_signup("-1"), SoloSignup::OffSeason);
    assert_eq!(solo_signup("-2"), SoloSignup::BuyToken);
    assert!(token_bought("恭喜，兑换玄铁令*1成功！"));
    assert!(!token_bought("积分不足"));
    let seasons = vec![Season { season: s("1"), status: s("1") }, Season { season: s("2"), status: s("2") }];
    assert_eq!(seasons_to_claim(&seasons), vec![0]);
}

#[test]
fn illusion_and_melee() {
    assert_eq!(misty_step("3", "0", "1/1", "", ""), MistyStep::InStage { fight: true });
    assert_eq!(misty_step("3", "1", "1/1", "", ""), MistyStep::InStage { fight: false });
    assert_eq!(misty_step("0", "0", "0/1", "5", "9"), MistyStep::NoTimes);
    assert_eq!(misty_step("0", "0", "1/1", "5", "9"), MistyStep::Enter(5));
    assert_eq!(misty_step("0", "0", "1/1", "5", "3"), MistyStep::Enter(3));
    assert_eq!(misty_step("0", "0", "1/1", "x", "3"), MistyStep::BadMaxStage);
    assert_eq!(misty_step("0", "0", "1/1", "5", "y"), MistyStep::BadStageNum);
    assert!(fight_goes_on("0", "10"));
    assert!(!fight_goes_on("0", "0"));
    let chests = vec![Chest { id: s("1"), status: s("1") }, Chest { id: s("2"), status: s("0") }];
    assert_eq!(open_chests(&chests), vec![1]);
    assert_eq!(melee_phase("1"), MeleePhase::Trials);
    assert_eq!(melee_phase("2"), MeleePhase::Cheer);
    assert_eq!(melee_phase("4"), MeleePhase::Reward);
    assert_eq!(melee_phase("3"), MeleePhase::Nothing);
    let scenes = vec![Scene { id: s("1001"), status: s("2") }, Scene { id: s("1002"), status: s("1") }];
    assert_eq!(open_scenes(&scenes), vec![1]);
    assert_eq!(scene_check("-1006", "0"), SceneCheck::Locked);
    assert_eq!(scene_check("-1", "0"), SceneCheck::Refused);
    assert_eq!(scene_check("0", "0"), SceneCheck::Ready);
    assert_eq!(scene_check("0", "1"), SceneCheck::Fallen);
    assert_eq!(trial_next("-1009", "0", "0", "1002"), TrialNext::BuyBook);
    assert_eq!(trial_next("-1009", "0", "0", "1001"), TrialNext::Stop);
    assert_eq!(trial_next("0", "1", "0", "1001"), TrialNext::Stop);
    assert_eq!(trial_next("0", "1", "1", "1002"), TrialNext::Continue);
    assert_eq!(trial_next("0", "0", "1", "1001"), TrialNext::Stop);
    assert_eq!(trial_next("0", "0", "0", "1001"), TrialNext::Continue);
    assert_eq!(scroll_exchange(0), None);
    assert_eq!(scroll_exchange(3), Some(3));
}

#[test]
fn mine_and_training() {
    assert_eq!(mine_step("奖励", "0", "0", "0"), MineStep::ClaimReward);
    assert_eq!(mine_step("", "0", "0", "0"), MineStep::Stop);
    assert_eq!(mine_step("", "0", "1", "0"), MineStep::OpenInstance);
    assert_eq!(mine_step("", "2", "1", "3"), MineStep::Stop);
    assert_eq!(mine_step("", "2", "1", "1"), MineStep::Fight);
    let cfg = KuangDongFuBen { ceng_shu: KuangDongFloor::F3, mo_shi: KuangDongMode::Normal };
    assert_eq!(start_command(&cfg), "cmd=factionmine&op=start&floor=3&mode=2");
    assert_eq!(li_lian_mode("49", "0"), LiLianMode::Rest);
    assert_eq!(li_lian_mode("50", "7"), LiLianMode::Advance(5));
    assert_eq!(li_lian_mode("50", "0"), LiLianMode::Bosses);
    assert_eq!(boss_maps(&vec![LiLianBoss::XiangXian, LiLianBoss::XiongShi]), vec!["10", "2"]);
    let mut round = BossRound::new();
    assert!(!round.take("0"));
    for _ in 0..5 {
        assert!(round.take("1"));
    }
    assert!(round.done());
}

#[test]
fn manor_and_missions() {
    assert!(!manor_hours(4));
    assert!(manor_hours(5));
    assert_eq!(manor_step("-1"), ManorStep::Conquer);
    assert_eq!(manor_step("0"), ManorStep::DailyReward);
    assert_eq!(manor_step("-3"), ManorStep::Refused);
    assert!(free_attack_left(None));
    assert!(!free_attack_left(Some("12/30")));
    assert!(free_attack_left(Some("06/15/12/30")));
    let accepted = vec![
        AcceptedMission { mission_id: s("1"), remain_time: s("0") },
        AcceptedMission { mission_id: s("2"), remain_time: s("30") },
    ];
    assert_eq!(done_missions(&accepted), vec![0]);
    assert!(can_take_more("1", "3", 2));
    assert!(!can_take_more("3", "3", 0));
    assert!(!can_take_more("1", "3", 3));
    let standby = vec![
        StandbyMission { accepted: s("0"), mission_id: s("1"), t: s("1"), mission_name: s("S") },
        StandbyMission { accepted: s("0"), mission_id: s("2"), t: s("2"), mission_name: s("A") },
        StandbyMission { accepted: s("1"), mission_id: s("3"), t: s("3"), mission_name: s("B") },
        StandbyMission { accepted: s("0"), mission_id: s("4"), t: s("3"), mission_name: s("B") },
    ];
    assert_eq!(candidates(&standby, true), vec![0, 3]);
    assert_eq!(candidates(&standby, false), vec![1]);
    assert!(dispatched("设置佣兵成功"));
    assert!(started("任务开始执行"));
    assert!(free_refresh("0"));
}

#[test]
fn journal_menu_pages() {
    let tasks = vec![
        JournalTask { task_id: s("1"), task_status: s("1") },
        JournalTask { task_id: s("2"), task_status: s("0") },
    ];
    assert_eq!(claimable_tasks(&tasks), vec![0]);
    assert_eq!(overflow_exchange("59", "100"), OverflowExchange::NotMaxLevel);
    assert_eq!(overflow_exchange("60", "x"), OverflowExchange::BadScore);
    assert_eq!(overflow_exchange("60", "123"), OverflowExchange::Batches { tens: 12, ones: 3 });
    assert_eq!(dishes_to_order("1,3,"), vec!["2", "4", "5"]);
    assert_eq!(dishes_to_order(""), vec!["1", "2", "3", "4", "5"]);
    assert_eq!(dishes_to_order("12,2"), vec!["1", "3", "4", "5"]);
    assert_eq!(page_check("-1"), PageCheck::Closed);
    assert_eq!(page_check("0"), PageCheck::Open);
    assert_eq!(page_check("-5"), PageCheck::Refused);
    let list = vec![
        Entry { id: s("1"), status: s("3") },
        Entry { id: s("2"), status: s("1") },
        Entry { id: s("3"), status: s("3") },
    ];
    assert_eq!(with_status(&list, "3"), vec![0, 2]);
    let reports = vec![
        Report { key: s("a"), desc: s("first") },
        Report { key: s("b"), desc: s("second") },
        Report { key: s("b"), desc: s("third") },
    ];
    assert_eq!(find_report(&reports, "b"), Some(1));
    assert_eq!(find_report(&reports, "c"), None);
}
