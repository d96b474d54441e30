use dld::dw::tasks::lian_sai::{attack_goes_on, league_step, still_standing, FightEntry, LeagueStep};

#[test]
fn league_steps() {
    assert_eq!(league_step("1", "0", false), LeagueStep::RoundReward);
    assert_eq!(league_step("2", "0", false), LeagueStep::RankReward);
    assert_eq!(league_step("3", "0", false), LeagueStep::Defend);
    assert_eq!(league_step("3", "1", false), LeagueStep::Nothing);
    assert_eq!(league_step("4", "1", true), LeagueStep::Attack);
    assert_eq!(league_step("4", "1", false), LeagueStep::Nothing);
    assert_eq!(league_step("4", "0", true), LeagueStep::Nothing);
}

#[test]
fn standing_in_the_record() {
    let list = vec![
        FightEntry { uin: "1".to_string(), is_win: "0".to_string() },
        FightEntry { uin: "2".to_string(), is_win: "1".to_string() },
    ];
    assert!(!still_standing(&list, "1"));
    assert!(still_standing(&list, "2"));
    assert!(still_standing(&list, "3"));
}

#[test]
fn attack_continuation() {
    assert!(attack_goes_on("1", "更换一名对手"));
    assert!(attack_goes_on("0", "勇士，恭喜您战胜了对手"));
    assert!(!attack_goes_on("0", "失败"));
    assert!(!attack_goes_on("1", "勇士，恭喜您战胜了对手"));
}
