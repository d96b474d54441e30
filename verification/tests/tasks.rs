use dld::dw::tasks::Task;

#[test]
fn full_run_order() {
    let all = Task::all();
    assert_eq!(all.len(), 75);
    assert_eq!(all[0], Task::FenXiang);
    assert_eq!(all[74], Task::MiJiFengYin);
    for (i, t) in all.iter().enumerate() {
        assert!(all.iter().skip(i + 1).all(|u| u != t), "{} is listed once", t.name());
    }
}

#[test]
fn task_names() {
    assert_eq!(Task::FenXiang.name(), "分享");
    assert_eq!(Task::JiangHuChangMeng.name(), "江湖长梦");
    assert_eq!(Task::MiJiFengYin.name(), "秘籍封印");
}
