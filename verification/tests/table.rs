use tasklog::duration::parse_duration;
use tasklog::instant::Instant;
use tasklog::models::{PomoStatus, PomoType, Priority, TableRow, TaskStatus};
use tasklog::session::PomoTask;
use tasklog::table::{print_rows, print_tables, print_tasks_table};
use tasklog::task::Task;

fn now() -> Instant {
    Instant::new(1_773_576_000, 0).unwrap() // 2026-03-15 12:00:00 UTC
}

fn row(cells: &[&str]) -> Vec<String> {
    cells.iter().map(|c| c.to_string()).collect()
}

#[test]
fn a_table_is_as_wide_as_its_widest_cells() {
    let headers = vec!["id", "title"];
    let rows = vec![row(&["1", "Write"]), row(&["12", "Go"])];
    assert_eq!(
        print_tables(&headers, &rows),
        vec![
            "| id | title | ".to_string(),
            "|----|-------|".to_string(),
            "| 1  | Write | ".to_string(),
            "| 12 | Go    | ".to_string(),
        ]
    );
}

#[test]
fn a_table_without_rows_has_its_titles_and_rule() {
    let headers = vec!["a", "bcd"];
    assert_eq!(
        print_tables(&headers, &Vec::new()),
        vec!["| a | bcd | ".to_string(), "|---|-----|".to_string()]
    );
    assert_eq!(print_tables(&Vec::new(), &vec![row(&["x"])]), vec!["| ", "|", "| "]);
}

#[test]
fn short_rows_are_filled_and_long_rows_are_cut() {
    let headers = vec!["a", "b"];
    let rows = vec![row(&["long cell"]), row(&["1", "2", "3"])];
    assert_eq!(
        print_tables(&headers, &rows),
        vec![
            "| a         | b | ".to_string(),
            "|-----------|---|".to_string(),
            "| long cell |   | ".to_string(),
            "| 1         | 2 | ".to_string(),
        ]
    );
}

#[test]
fn widths_count_characters() {
    let headers = vec!["n"];
    let rows = vec![row(&["日本語"]), row(&["ab"])];
    assert_eq!(
        print_tables(&headers, &rows),
        vec![
            "| n   | ".to_string(),
            "|-----|".to_string(),
            "| 日本語 | ".to_string(),
            "| ab  | ".to_string(),
        ]
    );
}

#[test]
fn tasks_are_laid_out_in_a_plain_table() {
    let mut first = Task::new("Write report".to_string(), now(), Priority::High, Some("work".to_string()));
    first.id = 7;
    let mut second = Task::new("Call".to_string(), now().plus_days(1).unwrap(), Priority::Low, None);
    second.id = 12;
    second.status = TaskStatus::Done;
    assert_eq!(
        print_tasks_table(&vec![first, second]).unwrap(),
        vec![
            "| id | title        | status | due_date   | priority | category | ".to_string(),
            "|----|--------------|--------|------------|----------|----------|".to_string(),
            "| 7  | Write report | Open   | 2026-03-15 | High     | work     | ".to_string(),
            "| 12 | Call         | Done   | 2026-03-16 | Low      |          | ".to_string(),
        ]
    );
}

#[test]
fn an_empty_listing_is_not_found() {
    assert_eq!(print_tasks_table(&Vec::new()).unwrap_err(), "\x1b[91mNOT_FOUND\x1b[0m");
}

#[test]
fn a_task_is_a_row() {
    let mut task = Task::new("Write report".to_string(), now(), Priority::High, Some("work".to_string()));
    task.id = 7;
    assert_eq!(task.headers(), vec!["id", "title", "due-date", "priority", "category", "status"]);
    assert_eq!(task.row(), vec!["7", "Write report", "2026-03-15", "High", "work", "Open"]);
    task.category = None;
    task.status = TaskStatus::Done;
    assert_eq!(task.row(), vec!["7", "Write report", "2026-03-15", "High", "-", "Done"]);
    assert_eq!(print_tables(&task.headers(), &vec![task.row()]).len(), 3);
    let copy = task.copy();
    assert_eq!(copy.row(), task.row());
}

#[test]
fn a_session_is_a_row() {
    let mut session = PomoTask::new(
        "Deep work".to_string(),
        PomoType::Work,
        parse_duration("25m").unwrap(),
        Some("focus".to_string()),
        now(),
    );
    session.id = 3;
    assert_eq!(
        session.headers(),
        vec!["id", "title", "duration", "category", "status", "type", "start-time", "end-time"]
    );
    assert_eq!(
        session.row(),
        vec!["3", "Deep work", "25m", "focus", "Running", "Work", "2026-03-15 12:00:00", "-"]
    );
    session.finalize(now().plus_seconds(1500).unwrap(), PomoStatus::Finished).unwrap();
    session.category = None;
    assert_eq!(
        session.row(),
        vec![
            "3",
            "Deep work",
            "25m",
            "-",
            "Finished",
            "Work",
            "2026-03-15 12:00:00",
            "2026-03-15 12:25:00"
        ]
    );
    assert_eq!(session.copy().row(), session.row());
}

#[test]
fn items_of_one_kind_make_a_table() {
    let mut first = Task::new("Write".to_string(), now(), Priority::High, None);
    first.id = 1;
    let mut second = Task::new("Go".to_string(), now(), Priority::Low, Some("out".to_string()));
    second.id = 2;
    assert_eq!(
        print_rows(&vec![first, second]).unwrap(),
        vec![
            "| id | title | due-date   | priority | category | status | ".to_string(),
            "|----|-------|------------|----------|----------|--------|".to_string(),
            "| 1  | Write | 2026-03-15 | High     | -        | Open   | ".to_string(),
            "| 2  | Go    | 2026-03-15 | Low      | out      | Open   | ".to_string(),
        ]
    );
    let none: Vec<PomoTask> = Vec::new();
    assert_eq!(print_rows(&none).unwrap_err(), "\x1b[91mNOT_FOUND\x1b[0m");
}
