use dld::dw::tasks::lve_duo::{forage_visit, raid_step, ForageVisit, Granary, RaidStep};

#[test]
fn forage_visits() {
    assert_eq!(
        forage_visit("2", "已报名", "1", "1"),
        ForageVisit { raid: true, sign_up: false, claim: false }
    );
    assert_eq!(
        forage_visit("2", "本帮派未报名", "1", "1"),
        ForageVisit { raid: false, sign_up: false, claim: false }
    );
    assert_eq!(
        forage_visit("1", "", "1", "0"),
        ForageVisit { raid: false, sign_up: true, claim: false }
    );
    assert_eq!(
        forage_visit("1", "", "0", "1"),
        ForageVisit { raid: false, sign_up: false, claim: true }
    );
}

fn granary(situation: &str, defenders: usize, power: Option<u32>) -> Granary {
    Granary { id: "g".to_string(), situation: situation.to_string(), defenders, first_power: power }
}

#[test]
fn raid_steps() {
    let list = vec![
        granary("1", 3, Some(10)),
        granary("0", 0, Some(10)),
        granary("0", 2, Some(5000)),
        granary("0", 2, Some(900)),
    ];
    assert_eq!(raid_step("0", "0/100", &list, 1000, 100), RaidStep::Dead);
    assert_eq!(raid_step("1", "0/100", &list, 1000, 100), RaidStep::Raid(3));
    assert_eq!(raid_step("0", "5/100", &list, 800, 100), RaidStep::Raise(900));
    assert_eq!(raid_step("0", "5/100", &list, 800, 0), RaidStep::Stop);
    let strong = vec![granary("0", 1, Some(200000))];
    assert_eq!(raid_step("0", "5/100", &strong, 99950, 100), RaidStep::Stop);
    assert_eq!(raid_step("0", "5/100", &strong, 99899, 100), RaidStep::Raise(99999));
    let bad = vec![granary("0", 2, None), granary("0", 2, Some(1))];
    assert_eq!(raid_step("0", "5/100", &bad, 800, 100), RaidStep::BadPower(0));
}
