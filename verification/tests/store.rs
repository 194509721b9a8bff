use rusqlite::types::Value;
use rusqlite::{Connection, ToSql};

use tasklog::duration::parse_duration;
use tasklog::error::Error;
use tasklog::filter::{get_pomodoro, get_tasks, LSArgs};
use tasklog::handlers::{control_terminal, handel_add_task, handle_done, handle_pomodoro};
use tasklog::instant::Instant;
use tasklog::models::{LSType, PomoStatus, PomoType, Priority, TaskStatus};
use tasklog::session::PomoTask;
use tasklog::store::{
    confirm_update, create_statements, decide_done, done_task, get_task_by_id, parse_pomo_task, parse_pomo_tasks,
    parse_task, parse_tasks, save_task, session_from_parts, storage_text, task_from_parts,
    update_pomodoro, SessionRow, SqlValue, Statement, TaskRow,
};
use tasklog::task::Task;

fn now() -> Instant {
    Instant::new(1_773_576_000, 3600).unwrap() // 2026-03-15 12:00:00 UTC
}

fn open_store() -> Connection {
    let conn = Connection::open_in_memory().unwrap();
    for statement in create_statements() {
        conn.execute(statement, ()).unwrap();
    }
    conn
}

fn values(statement: &Statement) -> Vec<(&'static str, Value)> {
    statement
        .params
        .iter()
        .map(|p| {
            let value = match &p.value {
                SqlValue::Integer(n) => Value::Integer(*n),
                SqlValue::Text(t) => Value::Text(t.clone()),
                SqlValue::Null => Value::Null,
            };
            (p.name, value)
        })
        .collect()
}

fn run(conn: &Connection, statement: &Statement) -> usize {
    let values = values(statement);
    let refs: Vec<(&str, &dyn ToSql)> = values.iter().map(|(n, v)| (*n, v as &dyn ToSql)).collect();
    conn.execute(&statement.sql, refs.as_slice()).unwrap()
}

fn insert_returning_id(conn: &Connection, statement: &Statement) -> u64 {
    let values = values(statement);
    let refs: Vec<(&str, &dyn ToSql)> = values.iter().map(|(n, v)| (*n, v as &dyn ToSql)).collect();
    conn.query_row(&statement.sql, refs.as_slice(), |row| row.get::<_, u64>(0)).unwrap()
}

fn task_rows(conn: &Connection, statement: &Statement) -> Vec<TaskRow> {
    let values = values(statement);
    let refs: Vec<(&str, &dyn ToSql)> = values.iter().map(|(n, v)| (*n, v as &dyn ToSql)).collect();
    let mut prepared = conn.prepare(&statement.sql).unwrap();
    let rows = prepared
        .query_map(refs.as_slice(), |row| {
            Ok(TaskRow {
                id: row.get(0)?,
                status: row.get(1)?,
                title: row.get(2)?,
                due_date: row.get(3)?,
                priority: row.get(4)?,
                category: row.get(5)?,
            })
        })
        .unwrap();
    rows.map(|row| row.unwrap()).collect()
}

fn session_rows(conn: &Connection, statement: &Statement) -> Vec<SessionRow> {
    let values = values(statement);
    let refs: Vec<(&str, &dyn ToSql)> = values.iter().map(|(n, v)| (*n, v as &dyn ToSql)).collect();
    let mut prepared = conn.prepare(&statement.sql).unwrap();
    let rows = prepared
        .query_map(refs.as_slice(), |row| {
            Ok(SessionRow {
                id: row.get(0)?,
                kind: row.get(1)?,
                title: row.get(2)?,
                start_time: row.get(3)?,
                end_time: row.get(4)?,
                duration: row.get(5)?,
                status: row.get(6)?,
                category: row.get(7)?,
            })
        })
        .unwrap();
    rows.map(|row| row.unwrap()).collect()
}

fn add_task(conn: &Connection, title: &str, days: u64, priority: Priority, category: Option<&str>) -> u64 {
    let task = Task::new(
        title.to_string(),
        now().plus_days(days).unwrap(),
        priority,
        category.map(|c| c.to_string()),
    );
    let statement = handel_add_task(&task, &now()).unwrap();
    assert_eq!(run(conn, &statement), 1);
    conn.last_insert_rowid() as u64
}

fn load_task(conn: &Connection, id: u64) -> Option<Task> {
    task_rows(conn, &get_task_by_id(id)).into_iter().next().map(|row| parse_task(row).unwrap())
}

fn titles(conn: &Connection, args: &LSArgs) -> Vec<String> {
    let statement = get_tasks(args, &now()).unwrap();
    parse_tasks(task_rows(conn, &statement)).unwrap().into_iter().map(|task| task.title).collect()
}

#[test]
fn test_done_task() {
    let conn = open_store();

    // Insert a task
    let task = Task {
        id: 0,
        status: TaskStatus::from_usize(0),
        title: "Task to Done".to_string(),
        due_date: now().plus_days(5).unwrap(),
        priority: Priority::from_usize(2),
        category: Some("Category E".to_string()),
    };
    assert_eq!(run(&conn, &save_task(&task)), 1);
    let task_id = conn.last_insert_rowid();

    // Mark the task as done
    assert_eq!(run(&conn, &done_task(task_id as u64)), 1);

    // Verify the task's status was updated
    let updated_task = load_task(&conn, task_id as u64).unwrap();
    assert_eq!(updated_task.status, TaskStatus::Done);
}

#[test]
fn a_stored_task_is_read_back() {
    let conn = open_store();
    let id = add_task(&conn, "Write report", 5, Priority::High, Some("work"));
    let task = load_task(&conn, id).unwrap();
    assert_eq!(task.id, id);
    assert_eq!(task.title, "Write report");
    assert_eq!(task.status, TaskStatus::Open);
    assert_eq!(task.priority, Priority::High);
    assert_eq!(task.category, Some("work".to_string()));
    assert_eq!(task.due_date, now().plus_days(5).unwrap().in_utc());
    let bare = add_task(&conn, "No category", 1, Priority::Low, None);
    assert_eq!(load_task(&conn, bare).unwrap().category, None);
    assert!(load_task(&conn, 999).is_none());
    assert!(load_task(&conn, u64::MAX).is_none());
}

#[test]
fn marking_done_twice_succeeds_once() {
    let conn = open_store();
    let id = add_task(&conn, "Once", 1, Priority::Medium, None);

    let first = handle_done(load_task(&conn, id)).unwrap();
    assert_eq!(first.task.status, TaskStatus::Done);
    assert_eq!(first.task.id, id);
    assert!(confirm_update(run(&conn, &first.statement)).is_ok());
    assert_eq!(load_task(&conn, id).unwrap().status, TaskStatus::Done);

    match handle_done(load_task(&conn, id)) {
        Err(Error::AlreadyDone) => {}
        other => panic!("expected AlreadyDone, got {:?}", other.map(|c| c.task)),
    }
    assert_eq!(load_task(&conn, id).unwrap().status, TaskStatus::Done);

    match handle_done(load_task(&conn, id + 1)) {
        Err(Error::NotFound) => {}
        other => panic!("expected NotFound, got {:?}", other.map(|c| c.task)),
    }
    match decide_done(None) {
        Err(Error::NotFound) => {}
        other => panic!("expected NotFound, got {:?}", other),
    }
}

#[test]
fn marking_done_in_memory_is_refused_the_second_time() {
    let mut task = Task::new("t".to_string(), now(), Priority::Low, None);
    assert!(task.mark_done().is_ok());
    assert_eq!(task.status, TaskStatus::Done);
    match task.mark_done() {
        Err(Error::AlreadyDone) => {}
        other => panic!("expected AlreadyDone, got {:?}", other),
    }
    assert_eq!(task.status, TaskStatus::Done);
    assert_eq!(Error::AlreadyDone.message(), "Task is already done");
}

#[test]
fn listings_default_to_open_tasks() {
    let conn = open_store();
    let open = add_task(&conn, "open", 0, Priority::Low, Some("a"));
    let done = add_task(&conn, "done", 0, Priority::Urgent, Some("b"));
    assert_eq!(run(&conn, &done_task(done)), 1);
    assert!(open < done);
    // Both were created in the same second, whenever this runs.
    let stamped = conn.execute("UPDATE tasks SET created_at = ?1", ("2026-03-01 10:00:00",));
    assert_eq!(stamped.unwrap(), 2);

    let mut args = LSArgs::new();
    assert_eq!(titles(&conn, &args), vec!["open"]);
    args.status = Some(TaskStatus::Open);
    assert_eq!(titles(&conn, &args), vec!["open"]);
    args.status = Some(TaskStatus::Done);
    assert_eq!(titles(&conn, &args), vec!["done"]);
    args.status = Some(TaskStatus::All);
    assert_eq!(titles(&conn, &args), vec!["open", "done"]);

    args.category = Some("b".to_string());
    assert_eq!(titles(&conn, &args), vec!["done"]);
    args.category = None;
    args.priority = Some(Priority::Low);
    assert_eq!(titles(&conn, &args), vec!["open"]);
    args.priority = Some(Priority::High);
    assert!(titles(&conn, &args).is_empty());
}

#[test]
fn listings_respect_the_window_the_limit_and_the_order() {
    let conn = open_store();
    let first = add_task(&conn, "first", 1, Priority::Low, None);
    let second = add_task(&conn, "second", 1, Priority::Low, None);
    let third = add_task(&conn, "third", 1, Priority::Low, None);
    add_task(&conn, "far", 3, Priority::Low, None);
    for (id, stamp) in [
        (first, "2026-03-01 10:00:00"),
        (second, "2026-03-02 10:00:00"),
        (third, "2026-03-02 10:00:00"),
    ] {
        let changed = conn
            .execute("UPDATE tasks SET created_at = ?1 WHERE id = ?2", (stamp, id as i64))
            .unwrap();
        assert_eq!(changed, 1);
    }

    let mut args = LSArgs::new();
    // Newest first; the two of the same second by ascending identity.
    assert_eq!(titles(&conn, &args), vec!["second", "third", "first"]);
    args.limit = 2;
    assert_eq!(titles(&conn, &args), vec!["second", "third"]);
    args.limit = 0;
    assert!(titles(&conn, &args).is_empty());
    args.limit = 100;
    args.days = 2;
    assert_eq!(titles(&conn, &args).len(), 3);
    args.days = 3;
    assert_eq!(titles(&conn, &args).len(), 4);
    args.days = 0;
    assert!(titles(&conn, &args).is_empty());
}

#[test]
fn a_session_round_trips_through_the_store() {
    let conn = open_store();
    let mut session = PomoTask::new(
        "Deep work".to_string(),
        PomoType::Work,
        parse_duration("25m").unwrap(),
        Some("focus".to_string()),
        now(),
    );
    assert_eq!(session.status, PomoStatus::Running);
    assert_eq!(session.start_time, now());
    assert!(session.end_time.is_none());

    let insert = handle_pomodoro(&session, &now()).unwrap();
    session.id = insert_returning_id(&conn, &insert);
    assert_eq!(session.id, 1);

    let mut args = LSArgs::new();
    args.ls_type = LSType::Pomo;
    let listing = get_pomodoro(&args, &now()).unwrap();
    let running = parse_pomo_task(session_rows(&conn, &listing).remove(0)).unwrap();
    assert_eq!(running.status, PomoStatus::Running);
    assert!(running.end_time.is_none());

    let end = now().plus_seconds(1500).unwrap();
    let update = control_terminal(&mut session, end, PomoStatus::Finished).unwrap();
    assert!(confirm_update(run(&conn, &update)).is_ok());

    let rows = session_rows(&conn, &listing);
    assert_eq!(rows.len(), 1);
    let read = parse_pomo_task(rows.into_iter().next().unwrap()).unwrap();
    assert_eq!(read.id, session.id);
    assert_eq!(read.title, "Deep work");
    assert_eq!(read.pomo_type, PomoType::Work);
    assert_eq!(read.duration, parse_duration("25m").unwrap());
    assert_eq!(read.category, Some("focus".to_string()));
    assert_eq!(read.status, PomoStatus::Finished);
    assert_eq!(read.start_time, now().in_utc());
    assert_eq!(read.end_time, Some(end.in_utc()));
    assert!(!read.end_time.unwrap().is_before(&read.start_time));
    assert!(read.is_well_formed());
}

#[test]
fn finalizing_a_missing_session_fails() {
    let conn = open_store();
    let mut session = PomoTask::default_at(now());
    session.id = 41;
    let update = control_terminal(&mut session, now(), PomoStatus::Paused).unwrap();
    match confirm_update(run(&conn, &update)) {
        Err(Error::Persistence(m)) => assert_eq!(m, "No row was updated"),
        other => panic!("expected a persistence error, got {:?}", other),
    }
    assert!(confirm_update(1).is_ok());
    assert_eq!(update_pomodoro(&session).sql, update.sql);
}

#[test]
fn a_session_is_sealed_once_and_never_ends_before_it_starts() {
    let mut session = PomoTask::default_at(now());
    let earlier = now().plus_seconds(-30).unwrap();
    assert!(session.finalize(earlier, PomoStatus::Paused).is_ok());
    assert_eq!(session.status, PomoStatus::Paused);
    assert_eq!(session.end_time, Some(now()));
    assert!(session.is_well_formed());
    match session.finalize(now().plus_seconds(60).unwrap(), PomoStatus::Finished) {
        Err(Error::Persistence(m)) => assert_eq!(m, "Session is already finalized"),
        other => panic!("expected a persistence error, got {:?}", other),
    }
    assert_eq!(session.status, PomoStatus::Paused);
    assert_eq!(session.end_time, Some(now()));

    let mut later = PomoTask::default_at(now());
    let end = now().plus_seconds(3).unwrap();
    assert!(later.finalize(end, PomoStatus::Finished).is_ok());
    assert_eq!(later.end_time, Some(end));
    assert_eq!(later.status, PomoStatus::Finished);
}

#[test]
fn rows_that_cannot_be_read_are_refused() {
    let row = TaskRow {
        id: 3,
        status: 1,
        title: "t".to_string(),
        due_date: "yesterday".to_string(),
        priority: 4,
        category: None,
    };
    match parse_task(row.clone()) {
        Err(Error::Persistence(m)) => assert_eq!(m, "Stored date cannot be read"),
        other => panic!("expected a persistence error, got {:?}", other),
    }
    let task = task_from_parts(row.clone(), Some(now())).unwrap();
    assert_eq!(task.id, 3);
    assert_eq!(task.status, TaskStatus::Done);
    assert_eq!(task.priority, Priority::Urgent);
    assert_eq!(task.due_date, now());
    assert!(task_from_parts(row, None).is_err());

    let session = SessionRow {
        id: 9,
        kind: 0,
        title: "rest".to_string(),
        start_time: storage_text(&now()),
        end_time: Some(storage_text(&now().plus_seconds(-1).unwrap())),
        duration: 300,
        status: 2,
        category: None,
    };
    match parse_pomo_task(session.clone()) {
        Err(Error::Persistence(m)) => assert_eq!(m, "Stored session is inconsistent"),
        other => panic!("expected a persistence error, got {:?}", other),
    }
    let mut running_with_end = session.clone();
    running_with_end.end_time = Some(storage_text(&now()));
    running_with_end.status = 0;
    assert!(parse_pomo_task(running_with_end).is_err());
    let mut finished_without_end = session.clone();
    finished_without_end.end_time = None;
    assert!(parse_pomo_task(finished_without_end).is_err());
    let mut bad_end = session.clone();
    bad_end.end_time = Some("never".to_string());
    match parse_pomo_task(bad_end) {
        Err(Error::Persistence(m)) => assert_eq!(m, "Stored date cannot be read"),
        other => panic!("expected a persistence error, got {:?}", other),
    }
    let good = session_from_parts(session, Some(now()), Some(now())).unwrap();
    assert_eq!(good.pomo_type, PomoType::Rest);
    assert_eq!(good.status, PomoStatus::Finished);
    assert_eq!(good.duration.millis(), 300_000);
    assert_eq!(good.end_time, Some(now()));
}

#[test]
fn instants_are_stored_in_utc() {
    assert_eq!(storage_text(&now()), "2026-03-15T12:00:00+00:00");
    assert_eq!(now().to_rfc3339(), "2026-03-15T13:00:00+01:00");
}

#[test]
fn a_listing_has_no_partial_results() {
    let good = TaskRow {
        id: 1,
        status: 0,
        title: "good".to_string(),
        due_date: storage_text(&now()),
        priority: 2,
        category: None,
    };
    let mut bad = good.clone_row();
    bad.id = 2;
    bad.due_date = "soon".to_string();
    let mut last = good.clone_row();
    last.id = 3;

    let read = parse_tasks(vec![good.clone_row(), last.clone_row()]).unwrap();
    assert_eq!(read.iter().map(|t| t.id).collect::<Vec<u64>>(), vec![1, 3]);
    assert!(parse_tasks(Vec::new()).unwrap().is_empty());
    match parse_tasks(vec![good, bad, last]) {
        Err(Error::Persistence(m)) => assert_eq!(m, "Stored date cannot be read"),
        other => panic!("expected a persistence error, got {:?}", other),
    }

    let session = SessionRow {
        id: 1,
        kind: 1,
        title: "s".to_string(),
        start_time: storage_text(&now()),
        end_time: None,
        duration: 60,
        status: 0,
        category: None,
    };
    let mut broken = session.clone_row();
    broken.status = 2;
    let read = parse_pomo_tasks(vec![session.clone_row(), session.clone_row()]).unwrap();
    assert_eq!(read.len(), 2);
    assert_eq!(read[1].pomo_type, PomoType::Work);
    match parse_pomo_tasks(vec![session, broken]) {
        Err(Error::Persistence(m)) => assert_eq!(m, "Stored session is inconsistent"),
        other => panic!("expected a persistence error, got {:?}", other),
    }
}
