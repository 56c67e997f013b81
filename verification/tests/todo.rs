use mini_cli::clock::Timestamp;
use mini_cli::todo::{Command, Outcome, Todo, TodoList};

fn at(secs: i64) -> Timestamp {
    Timestamp::new(secs, 0, 0).expect("an instant")
}

fn list_of(descriptions: &[&str]) -> TodoList {
    let mut list = TodoList::new(None);
    for (i, d) in descriptions.iter().enumerate() {
        list.add_at(d.to_string(), at(60 * i as i64));
    }
    list
}

fn state(list: &TodoList) -> Vec<(String, bool, Timestamp)> {
    list.records()
        .iter()
        .map(|t| (t.description().to_string(), t.is_completed(), t.created_at()))
        .collect()
}

#[test]
fn nothing_loaded_gives_the_empty_list() {
    let list = TodoList::new(None);
    assert!(list.is_empty());
    assert_eq!(list.len(), 0);
    assert!(list.records().is_empty());
    assert!(list.rows().is_empty());
}

#[test]
fn what_was_loaded_is_the_list() {
    let loaded = vec![
        Todo::restore("a".to_string(), true, at(5)),
        Todo::new("b".to_string(), at(6)),
    ];
    let list = TodoList::new(Some(loaded));
    assert_eq!(list.len(), 2);
    assert!(!list.is_empty());
    assert_eq!(
        state(&list),
        vec![("a".to_string(), true, at(5)), ("b".to_string(), false, at(6))]
    );
    assert!(TodoList::new(Some(Vec::new())).is_empty());
}

#[test]
fn a_new_record_is_pending() {
    let todo = Todo::new("write".to_string(), at(9));
    assert_eq!(todo.description(), "write");
    assert!(!todo.is_completed());
    assert_eq!(todo.created_at(), at(9));
    let stored = Todo::restore("read".to_string(), true, at(10));
    assert_eq!(stored.description(), "read");
    assert!(stored.is_completed());
    assert_eq!(stored.created_at(), at(10));
}

#[test]
fn add_appends_a_pending_record() {
    let mut list = list_of(&["a", "b"]);
    let before = state(&list);
    list.add_at("c".to_string(), at(1000));
    let after = state(&list);
    assert_eq!(after.len(), 3);
    assert_eq!(&after[..2], &before[..]);
    assert_eq!(after[2], ("c".to_string(), false, at(1000)));
}

#[test]
fn add_stamps_the_record_with_the_current_time() {
    let mut list = list_of(&["a"]);
    let before = state(&list);
    let earlier = Timestamp::now();
    list.add("now".to_string());
    let later = Timestamp::now();
    let after = state(&list);
    assert_eq!(after.len(), 2);
    assert_eq!(after[0], before[0]);
    assert_eq!(after[1].0, "now");
    assert!(!after[1].1);
    let stamp = after[1].2;
    assert!(earlier.secs() <= stamp.secs() && stamp.secs() <= later.secs());
}

#[test]
fn done_marks_one_record_and_leaves_the_others() {
    let mut list = list_of(&["a", "b", "c"]);
    let before = state(&list);
    assert!(list.mark_done(2));
    let after = state(&list);
    assert_eq!(after.len(), 3);
    assert_eq!(after[0], before[0]);
    assert_eq!(after[2], before[2]);
    assert_eq!(after[1], ("b".to_string(), true, before[1].2));
    assert!(list.mark_done(2));
    assert_eq!(state(&list), after);
    assert!(list.mark_done(1));
    assert!(list.mark_done(3));
    assert!(state(&list).iter().all(|t| t.1));
}

#[test]
fn remove_takes_one_record_and_moves_the_later_ones_up() {
    let mut list = list_of(&["a", "b", "c", "d"]);
    let before = state(&list);
    assert!(list.remove(2));
    let after = state(&list);
    assert_eq!(after, vec![before[0].clone(), before[2].clone(), before[3].clone()]);
    assert!(list.remove(3));
    assert_eq!(state(&list), vec![before[0].clone(), before[2].clone()]);
    assert!(list.remove(1));
    assert_eq!(state(&list), vec![before[2].clone()]);
    assert!(list.remove(1));
    assert!(list.is_empty());
    assert!(!list.remove(1));
}

#[test]
fn a_position_outside_the_list_is_not_found() {
    let mut list = list_of(&["a", "b"]);
    let before = state(&list);
    for index in [0, 3, 4, usize::MAX] {
        assert!(!list.mark_done(index), "{}", index);
        assert_eq!(state(&list), before);
        assert!(!list.remove(index), "{}", index);
        assert_eq!(state(&list), before);
    }
    let mut empty = TodoList::new(None);
    assert!(!empty.mark_done(0));
    assert!(!empty.mark_done(1));
    assert!(!empty.remove(0));
    assert!(!empty.remove(1));
    assert!(empty.is_empty());
}

#[test]
fn rows_count_from_one_and_show_the_minute() {
    let mut list = TodoList::new(None);
    list.add_at("first".to_string(), Timestamp::new(0, 0, 3600).expect("an instant"));
    list.add_at("second".to_string(), at(1_700_000_000));
    assert!(list.mark_done(2));
    let rows = list.rows();
    assert_eq!(rows.len(), 2);
    assert_eq!(rows[0].position, 1);
    assert!(!rows[0].completed);
    assert_eq!(rows[0].description, "first");
    assert_eq!(rows[0].date, "1970-01-01 01:00");
    assert_eq!(rows[1].position, 2);
    assert!(rows[1].completed);
    assert_eq!(rows[1].description, "second");
    assert_eq!(rows[1].date, "2023-11-14 22:13");
}

#[test]
fn only_some_outcomes_change_the_list() {
    assert!(Outcome::Added.changes_list());
    assert!(Outcome::MarkedDone.changes_list());
    assert!(Outcome::Removed.changes_list());
    assert!(!Outcome::Listed.changes_list());
    assert!(!Outcome::NotFound.changes_list());
}

#[test]
fn run_carries_out_each_command() {
    let mut list = TodoList::new(None);
    let report = list.run(Command::Add { description: "buy milk".to_string() });
    assert_eq!(report.outcome, Outcome::Added);
    assert_eq!(report.lines.len(), 1);
    assert_eq!(list.len(), 1);
    let report = list.run(Command::List);
    assert_eq!(report.outcome, Outcome::Listed);
    assert_eq!(report.lines.len(), 1);
    assert_eq!(list.len(), 1);
    let report = list.run(Command::Done { index: 1 });
    assert_eq!(report.outcome, Outcome::MarkedDone);
    assert!(list.records()[0].is_completed());
    let report = list.run(Command::Done { index: 2 });
    assert_eq!(report.outcome, Outcome::NotFound);
    let report = list.run(Command::Done { index: 0 });
    assert_eq!(report.outcome, Outcome::NotFound);
    let report = list.run(Command::Remove { index: 0 });
    assert_eq!(report.outcome, Outcome::NotFound);
    let report = list.run(Command::Remove { index: 2 });
    assert_eq!(report.outcome, Outcome::NotFound);
    assert_eq!(list.len(), 1);
    let report = list.run(Command::Remove { index: 1 });
    assert_eq!(report.outcome, Outcome::Removed);
    assert!(list.is_empty());
}

#[test]
fn buy_milk_from_start_to_end() {
    let mut list = TodoList::new(None);
    assert!(list.is_empty());
    list.run(Command::Add { description: "buy milk".to_string() });
    let rows = list.rows();
    assert_eq!(rows.len(), 1);
    assert_eq!(rows[0].position, 1);
    assert_eq!(rows[0].description, "buy milk");
    assert!(!rows[0].completed);
    let stamp = list.records()[0].created_at();
    list.run(Command::Done { index: 1 });
    let rows = list.rows();
    assert_eq!(rows.len(), 1);
    assert_eq!(rows[0].position, 1);
    assert_eq!(rows[0].description, "buy milk");
    assert!(rows[0].completed);
    assert_eq!(list.records()[0].created_at(), stamp);
    list.run(Command::Remove { index: 1 });
    assert!(list.rows().is_empty());
    assert!(list.is_empty());
    let report = list.run(Command::List);
    assert_eq!(report.lines.len(), 1);
    assert!(report.lines[0].contains("No todos yet!"));
}

#[test]
fn a_finished_record_is_never_reopened() {
    let mut list = list_of(&["a", "b", "c"]);
    list.mark_done(1);
    list.mark_done(3);
    let commands = vec![
        Command::List,
        Command::Done { index: 1 },
        Command::Done { index: 0 },
        Command::Add { description: "d".to_string() },
        Command::Done { index: 9 },
        Command::Remove { index: 2 },
        Command::Remove { index: 7 },
        Command::List,
    ];
    for command in commands {
        let before = state(&list);
        list.run(command);
        for now in state(&list) {
            if let Some(was) = before.iter().find(|t| t.0 == now.0) {
                assert_eq!(now.2, was.2);
                assert!(now.1 || !was.1);
            }
        }
    }
    assert_eq!(
        state(&list).iter().map(|t| (t.0.as_str(), t.1)).collect::<Vec<_>>(),
        vec![("a", true), ("c", true), ("d", false)]
    );
}
