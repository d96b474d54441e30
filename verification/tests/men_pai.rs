use dld::dw::tasks::men_pai::{
    calc_sparring_count, find_sect_member, incense_plan, pending_tasks, sect_action, tasks_to_complete,
    SectAction, SectMember, SectTask,
};

#[test]
fn test_free_once() {
    assert_eq!(calc_sparring_count("0", false), Some(1));
}

#[test]
fn test_paid_twice() {
    assert_eq!(calc_sparring_count("0", true), Some(2));
}

#[test]
fn test_paid_second_once() {
    assert_eq!(calc_sparring_count("1", true), Some(1));
}

#[test]
fn test_no_sparring() {
    assert_eq!(calc_sparring_count("1", false), None);
    assert_eq!(calc_sparring_count("2", true), None);
    assert_eq!(calc_sparring_count("2", false), None);
}

#[test]
fn incense_choices() {
    assert_eq!(incense_plan("1", "1", true), (true, true));
    assert_eq!(incense_plan("1", "1", false), (true, false));
    assert_eq!(incense_plan("0", "0", true), (false, false));
}

fn task(id: &str, state: &str, desc: &str) -> SectTask {
    SectTask { id: id.to_string(), state: state.to_string(), desc: desc.to_string() }
}

#[test]
fn sect_tasks() {
    assert!(matches!(sect_action("进入金顶看一看"), Some(SectAction::Look("cmd=sect&op=showcouncil"))));
    assert!(matches!(sect_action("与首座进行一次武艺切磋"), Some(SectAction::Spar("2"))));
    assert!(matches!(sect_action("进行一次心法修炼"), Some(SectAction::Cultivate)));
    assert!(sect_action("别的任务").is_none());
    let tasks = vec![
        task("1", "0", "查看一名同门成员的资料"),
        task("2", "1", "进入华藏寺看一看"),
        task("3", "0", "别的任务"),
        task("4", "0", "查看一名其他门派成员的资料"),
        task("5", "2", "进入华藏寺看一看"),
    ];
    let pending = pending_tasks(&tasks);
    assert_eq!(pending.len(), 2);
    assert!(matches!(pending[0], (0, SectAction::ViewSameSect)));
    assert!(matches!(pending[1], (3, SectAction::ViewOtherSect)));
    assert_eq!(tasks_to_complete(&tasks), vec![1]);
}

#[test]
fn sect_members() {
    let info = vec![
        SectMember { uin: "1".to_string(), sect: "0".to_string() },
        SectMember { uin: "2".to_string(), sect: "7".to_string() },
        SectMember { uin: "3".to_string(), sect: "9".to_string() },
    ];
    assert_eq!(find_sect_member(&info, "9", true), Some(2));
    assert_eq!(find_sect_member(&info, "9", false), Some(1));
    assert_eq!(find_sect_member(&info, "5", true), None);
}
