use campus_backend::routes::mess::{MenuAction, MenuReplacement};

fn label(a: &MenuAction) -> String {
    match a {
        MenuAction::BeginTransaction => "begin".to_string(),
        MenuAction::ClearMenu => "clear".to_string(),
        MenuAction::InsertEntry(i) => format!("insert {i}"),
        MenuAction::Commit => "commit".to_string(),
        MenuAction::Finish(Ok(())) => "ok".to_string(),
        MenuAction::Finish(Err(e)) => format!("{} {}", e.status, e.message),
    }
}

fn run(total: usize, fail_at: Option<usize>) -> Vec<String> {
    let (mut m, mut a) = MenuReplacement::start(total);
    let mut seen = vec![label(&a)];
    let mut step = 0;
    while !matches!(a, MenuAction::Finish(_)) {
        let outcome = if Some(step) == fail_at { Err("boom".to_string()) } else { Ok(()) };
        a = m.step(outcome);
        seen.push(label(&a));
        step += 1;
    }
    seen
}

#[test]
fn menu_replaced_entry_by_entry() {
    assert_eq!(run(2, None), vec!["begin", "clear", "insert 0", "insert 1", "commit", "ok"]);
    assert_eq!(run(0, None), vec!["begin", "clear", "commit", "ok"]);
}

#[test]
fn menu_failures() {
    assert_eq!(run(2, Some(0)), vec!["begin", "500 Failed to connect to database"]);
    assert_eq!(run(2, Some(1)), vec!["begin", "clear", "500 Couldn't clear old mess_menu"]);
    assert_eq!(
        run(2, Some(3)),
        vec!["begin", "clear", "insert 0", "insert 1", "500 Couldn't update mess_menu to database"]
    );
    assert_eq!(
        run(2, Some(4)),
        vec!["begin", "clear", "insert 0", "insert 1", "commit", "500 Failed to commit: boom"]
    );
}
