use tasklog::analyze::{AnalyzeArgs, PomoLogsArgs};
use tasklog::duration::{parse_duration, DurationField};
use tasklog::error::Error;
use tasklog::filter::LSArgs;
use tasklog::handlers::{
    get_home_directory, handel_add_task, handle_analyze, handle_init_db, handle_ls,
    handle_pomodoro,
};
use tasklog::instant::{Instant, MAX_SECONDS, MIN_SECONDS};
use tasklog::models::{CommandArgs, DoneArgs, LSType, PomoStatus, PomoType, Priority, TaskStatus};
use tasklog::session::PomoTask;
use tasklog::store::{database_dir, database_file};
use tasklog::task::Task;

fn now() -> Instant {
    Instant::new(1_773_576_000, 0).unwrap() // 2026-03-15 12:00:00 UTC
}

fn session(title: &str, duration: DurationField) -> PomoTask {
    PomoTask::new(title.to_string(), PomoType::Work, duration, None, now())
}

fn some(text: &str) -> Option<String> {
    Some(text.to_string())
}

#[test]
fn a_task_needs_a_title_and_a_due_date_not_in_the_past() {
    let due = now().plus_days(1).unwrap();
    let good = Task::new("Write".to_string(), due, Priority::Medium, None);
    assert_eq!(good.validate(&now()), Ok(()));
    let due_now = Task::new("Write".to_string(), now(), Priority::Medium, None);
    assert_eq!(due_now.validate(&now()), Ok(()));
    let untitled = Task::new("".to_string(), due, Priority::Medium, None);
    assert_eq!(untitled.validate(&now()), Err("Title cannot be empty".to_string()));
    let blank = Task::new(" \t ".to_string(), due, Priority::Medium, None);
    assert_eq!(blank.validate(&now()), Err("Title cannot be empty".to_string()));
    let late = Task::new("Write".to_string(), now().plus_seconds(-1).unwrap(), Priority::Medium, None);
    assert_eq!(late.validate(&now()), Err("Due date cannot be in the past".to_string()));
    let both = Task::new("".to_string(), now().plus_seconds(-1).unwrap(), Priority::Medium, None);
    assert_eq!(both.validate(&now()), Err("Title cannot be empty".to_string()));
}

#[test]
fn a_task_has_its_defaults() {
    let task = Task::default_at(&now()).unwrap();
    assert_eq!(task.id, 0);
    assert_eq!(task.status, TaskStatus::Open);
    assert_eq!(task.title, "");
    assert_eq!(task.priority, Priority::Medium);
    assert_eq!(task.category, None);
    assert_eq!(task.due_date, now().plus_days(1).unwrap());
    assert!(Task::default_at(&Instant::new(MAX_SECONDS, 0).unwrap()).is_none());
}

#[test]
fn a_session_needs_a_positive_length_and_a_title() {
    assert_eq!(session("Focus", parse_duration("25m").unwrap()).validate(&now()), Ok(()));
    assert_eq!(session("Focus", parse_duration("1ms").unwrap()).validate(&now()), Ok(()));
    assert_eq!(
        session("Focus", parse_duration("0s").unwrap()).validate(&now()),
        Err("Duration cannot be 0".to_string())
    );
    assert_eq!(
        session("", parse_duration("0s").unwrap()).validate(&now()),
        Err("Duration cannot be 0".to_string())
    );
    assert_eq!(
        session("Focus", parse_duration("-5m").unwrap()).validate(&now()),
        Err("Duration cannot be negative".to_string())
    );
    assert_eq!(
        session("  ", parse_duration("25m").unwrap()).validate(&now()),
        Err("Title cannot be empty".to_string())
    );
}

#[test]
fn a_session_has_its_defaults() {
    let session = PomoTask::default_at(now());
    assert_eq!(session.id, 0);
    assert_eq!(session.status, PomoStatus::Running);
    assert_eq!(session.pomo_type, PomoType::Work);
    assert_eq!(session.title, "");
    assert_eq!(session.duration.millis(), 1_500_000);
    assert_eq!(session.category, None);
    assert_eq!(session.start_time, now());
    assert_eq!(session.end_time, None);
    assert!(session.is_well_formed());
    assert_eq!(session.duration.add_date(&now()), now().plus_seconds(1500));
    assert_eq!(
        parse_duration("1h").unwrap().add_date(&Instant::new(MAX_SECONDS, 0).unwrap()),
        None
    );
}

#[test]
fn requests_are_checked_before_anything_is_stored() {
    let untitled = Task::new("".to_string(), now(), Priority::Low, None);
    match handel_add_task(&untitled, &now()) {
        Err(Error::Validation(m)) => assert_eq!(m, "Title cannot be empty"),
        other => panic!("expected a validation error, got {:?}", other),
    }
    let task = Task::new("Write".to_string(), now(), Priority::Low, None);
    let statement = handel_add_task(&task, &now()).unwrap();
    assert_eq!(
        statement.sql,
        "INSERT INTO tasks (status, title, due_date, priority, category) \
         VALUES (:status, :title, :due_date, :priority, :category)"
    );
    assert_eq!(statement.params.len(), 5);

    match handle_pomodoro(&session("Focus", parse_duration("0m").unwrap()), &now()) {
        Err(e @ Error::Validation(_)) => assert_eq!(e.message(), "Err: Duration cannot be 0"),
        other => panic!("expected a validation error, got {:?}", other),
    }
    let insert = handle_pomodoro(&session("Focus", parse_duration("25m").unwrap()), &now()).unwrap();
    assert_eq!(
        insert.sql,
        "INSERT INTO pomodoro (type, title, start_time, duration, status, category) \
         VALUES (:type, :title, :start_time, :duration, :status, :category) RETURNING id"
    );
    assert_eq!(insert.params.len(), 6);
}

#[test]
fn a_listing_has_a_heading() {
    let mut args = LSArgs::new();
    args.days = 30;
    let listing = handle_ls(&args, &now()).unwrap();
    assert_eq!(listing.ls_type, LSType::Task);
    assert_eq!(
        listing.heading,
        "\x1b[92mResults tasks with due_date as 2026-04-14 or before:\n\x1b[0m"
    );
    assert!(listing.statement.sql.starts_with("SELECT id, status, title"));

    args.ls_type = LSType::Pomo;
    let sessions = handle_ls(&args, &now()).unwrap();
    assert_eq!(sessions.ls_type, LSType::Pomo);
    assert!(sessions.statement.sql.starts_with("SELECT id, type, title"));

    args.limit = 500;
    match handle_ls(&args, &now()) {
        Err(e @ Error::Validation(_)) => {
            assert_eq!(e.message(), "Err: Limit cannot be greater than 100")
        }
        other => panic!("expected a validation error, got {:?}", other.map(|l| l.heading)),
    }
}

#[test]
fn errors_have_their_sentences() {
    assert_eq!(Error::Validation("x".to_string()).message(), "Err: x");
    assert_eq!(Error::NotFound.message(), "Not found");
    assert_eq!(Error::AlreadyDone.message(), "Task is already done");
    assert_eq!(Error::Persistence("y".to_string()).message(), "Error: y");
    assert_eq!(Error::Terminal("z".to_string()).message(), "Terminal error: z");
}

#[test]
fn the_home_directory_is_picked_in_order() {
    assert_eq!(get_home_directory(some("/home/a"), some("C:\\a"), None, None), Ok("/home/a".to_string()));
    assert_eq!(get_home_directory(None, some("C:\\a"), some("D:"), some("\\b")), Ok("C:\\a".to_string()));
    assert_eq!(get_home_directory(None, None, some("D:"), some("\\b")), Ok("D:\\b".to_string()));
    assert_eq!(
        get_home_directory(None, None, some("D:"), None),
        Err("Could not get the home directory".to_string())
    );
    assert_eq!(
        get_home_directory(None, None, None, some("\\b")),
        Err("Could not get the home directory".to_string())
    );
    assert_eq!(
        get_home_directory(None, None, None, None),
        Err("Could not get the home directory".to_string())
    );
}

#[test]
fn the_store_lives_below_the_home_directory() {
    assert_eq!(database_dir("/home/a"), "/home/a/.tasklog");
    assert_eq!(database_file("/home/a"), "/home/a/.tasklog/db.sqlite");
    let plan = handle_init_db("/home/a");
    assert_eq!(plan.directory, "/home/a/.tasklog");
    assert_eq!(plan.file, "/home/a/.tasklog/db.sqlite");
    assert_eq!(plan.statements.len(), 8);
    assert!(plan.statements[0].starts_with("CREATE TABLE IF NOT EXISTS tasks"));
    assert!(plan.statements[1].starts_with("CREATE INDEX IF NOT EXISTS idx_tasks_status"));
    assert!(plan.statements[4].starts_with("CREATE TABLE IF NOT EXISTS pomodoro"));
    assert!(plan.statements[7].starts_with("CREATE INDEX IF NOT EXISTS idx_pomodoro_status"));
}

#[test]
fn an_analysis_reaches_a_year_at_most() {
    let year = now().plus_months(12).unwrap();
    let within = AnalyzeArgs { days: now().plus_days(30).unwrap() };
    assert_eq!(within.validate(&now()), Ok(()));
    let edge = AnalyzeArgs { days: year };
    assert_eq!(edge.validate(&now()), Ok(()));
    let beyond = AnalyzeArgs { days: year.plus_seconds(1).unwrap() };
    assert_eq!(beyond.validate(&now()), Err("Days cannot be greater than 365".to_string()));
    assert_eq!(beyond.validate_within(None), Err("Days cannot be greater than 365".to_string()));
    assert_eq!(beyond.validate_within(Some(beyond.days)), Ok(()));
    let late = Instant::new(MAX_SECONDS, 0).unwrap();
    assert_eq!(within.validate(&late), Err("Days cannot be greater than 365".to_string()));

    let (start, end) = within.window(&now()).unwrap();
    assert_eq!(start, now().plus_days(30).unwrap().plus_seconds(-60 * 86_400).unwrap());
    assert_eq!(end, within.days);
    assert_eq!(handle_analyze(&within, &now()).unwrap(), (start, end));
    match handle_analyze(&beyond, &now()) {
        Err(e @ Error::Validation(_)) => {
            assert_eq!(e.message(), "Err: Days cannot be greater than 365")
        }
        other => panic!("expected a validation error, got {:?}", other),
    }
    let early = Instant::new(MIN_SECONDS, 0).unwrap();
    assert!(within.window(&early).is_none());
}

#[test]
fn a_log_does_not_start_in_the_past() {
    assert_eq!(PomoLogsArgs { since: None }.validate(&now()), Ok(()));
    assert_eq!(PomoLogsArgs { since: Some(now()) }.validate(&now()), Ok(()));
    assert_eq!(
        PomoLogsArgs { since: now().plus_seconds(-1) }.validate(&now()),
        Err("Since date cannot be in the past".to_string())
    );
    assert_eq!(DoneArgs { id: 4 }.id, 4);
}
