//! What is said to the store and what is read from it.
//!
//! Nothing here opens a database. A [`Statement`] is the text of one SQL
//! statement with its named parameters, for the caller to run; a row is the
//! plain values of one result row, for the functions here to read. Instants
//! are stored as RFC 3339 text in UTC, enumerations as their integers.

use vstd::prelude::*;
use vstd::string::*;
use crate::duration::{duration_of_seconds, stored_number, DurationField};
use crate::error::{Error, ErrorModel};
use crate::instant::{instant_of, rfc3339_parts, rfc3339_text, Instant, InstantModel};
use crate::models::{
    names, pomo_status_code, pomo_status_of_code, pomo_type_code, pomo_type_of_code, priority_code,
    priority_of_code, task_status_code, task_status_of_code, PomoStatus, PomoType, Priority,
    TaskStatus,
};
use crate::session::{option_instant, session_well_formed, PomoModel, PomoTask};
use crate::task::{marked_done, Task, TaskModel};
use crate::text::{clone_option_text, option_text};

verus! {

/// The directory of the store, below the home directory.
pub const DB_FILE_PATH: &'static str = "/.tasklog";

/// The file of the store, below its directory.
pub const DB_FILE_NAME: &'static str = "/db.sqlite";

/// The statement that makes the table of tasks.
pub const CREATE_TASKS_TABLE: &'static str =
    "CREATE TABLE IF NOT EXISTS tasks (id INTEGER PRIMARY KEY AUTOINCREMENT, status INTEGER NOT NULL DEFAULT 0, title TEXT NOT NULL, due_date TIMESTAMP NOT NULL DEFAULT CURRENT_TIMESTAMP, priority INTEGER NOT NULL DEFAULT 2, category TEXT, created_at TIMESTAMP NOT NULL DEFAULT CURRENT_TIMESTAMP, updated_at TIMESTAMP NOT NULL DEFAULT CURRENT_TIMESTAMP)";

/// The statement that makes the table of sessions.
pub const CREATE_POMODORO_TABLE: &'static str =
    "CREATE TABLE IF NOT EXISTS pomodoro (id INTEGER PRIMARY KEY AUTOINCREMENT, type INTEGER NOT NULL DEFAULT 0, title TEXT NOT NULL, start_time TIMESTAMP NOT NULL DEFAULT CURRENT_TIMESTAMP, end_time TIMESTAMP, duration INTEGER NOT NULL DEFAULT 1500, status INTEGER NOT NULL DEFAULT 0, category TEXT, created_at TIMESTAMP NOT NULL DEFAULT CURRENT_TIMESTAMP, updated_at TIMESTAMP NOT NULL DEFAULT CURRENT_TIMESTAMP)";

/// The index of tasks by status.
pub const CREATE_TASKS_STATUS_INDEX: &'static str =
    "CREATE INDEX IF NOT EXISTS idx_tasks_status ON tasks (status)";

/// The index of tasks by due date.
pub const CREATE_TASKS_DUE_DATE_INDEX: &'static str =
    "CREATE INDEX IF NOT EXISTS idx_tasks_due_date ON tasks (due_date)";

/// The index of tasks by category.
pub const CREATE_TASKS_CATEGORY_INDEX: &'static str =
    "CREATE INDEX IF NOT EXISTS idx_tasks_category ON tasks (category)";

/// The index of sessions by kind.
pub const CREATE_POMODORO_TYPE_INDEX: &'static str =
    "CREATE INDEX IF NOT EXISTS idx_pomodoro_type ON pomodoro (type)";

/// The index of sessions by category.
pub const CREATE_POMODORO_CATEGORY_INDEX: &'static str =
    "CREATE INDEX IF NOT EXISTS idx_pomodoro_category ON pomodoro (category)";

/// The index of sessions by status.
pub const CREATE_POMODORO_STATUS_INDEX: &'static str =
    "CREATE INDEX IF NOT EXISTS idx_pomodoro_status ON pomodoro (status)";

/// The statements that set the store up, in the order in which they are run:
/// each table, then its indexes.
pub open spec fn schema() -> Seq<Seq<char>> {
    seq![
        CREATE_TASKS_TABLE@,
        CREATE_TASKS_STATUS_INDEX@,
        CREATE_TASKS_DUE_DATE_INDEX@,
        CREATE_TASKS_CATEGORY_INDEX@,
        CREATE_POMODORO_TABLE@,
        CREATE_POMODORO_TYPE_INDEX@,
        CREATE_POMODORO_CATEGORY_INDEX@,
        CREATE_POMODORO_STATUS_INDEX@,
    ]
}

/// The statements that set the store up.
pub fn create_statements() -> (statements: Vec<&'static str>)
    ensures
        names(statements@) == schema(),
{
    let statements = vec![
        CREATE_TASKS_TABLE,
        CREATE_TASKS_STATUS_INDEX,
        CREATE_TASKS_DUE_DATE_INDEX,
        CREATE_TASKS_CATEGORY_INDEX,
        CREATE_POMODORO_TABLE,
        CREATE_POMODORO_TYPE_INDEX,
        CREATE_POMODORO_CATEGORY_INDEX,
        CREATE_POMODORO_STATUS_INDEX,
    ];
    assert(names(statements@) =~= schema());
    statements
}

/// The text of the statement that reads one task.
pub const GET_TASK_BY_ID: &'static str =
    "SELECT id, status, title, due_date, priority, category FROM tasks WHERE id = :id";

/// The text of the statement that stores a new task.
pub const INSERT_TASK: &'static str =
    "INSERT INTO tasks (status, title, due_date, priority, category) VALUES (:status, :title, :due_date, :priority, :category)";

/// The text of the statement that marks one task as done.
pub const DONE_TASK: &'static str = "UPDATE tasks SET status = 1 WHERE id = :id";

/// The text of the statement that stores a new session and hands back its identity.
pub const INSERT_POMO: &'static str =
    "INSERT INTO pomodoro (type, title, start_time, duration, status, category) VALUES (:type, :title, :start_time, :duration, :status, :category) RETURNING id";

/// The text of the statement that seals a stored session.
pub const UPDATE_POMODORO: &'static str =
    "UPDATE pomodoro SET status = :status, end_time = :end_date WHERE id = :id";

/// The text of the statement that lists sessions: newest first, and among
/// sessions started in the same second the one with the smaller identity first.
pub const GET_POMODORO_LIST: &'static str =
    "SELECT id, type, title, start_time, end_time, duration, status, category FROM pomodoro ORDER BY start_time DESC, id ASC LIMIT :limit";

/// The text that says that an update changed no row.
pub const NO_ROW_MESSAGE: &'static str = "No row was updated";

/// The text that says that a stored instant cannot be read.
pub const BAD_DATE_MESSAGE: &'static str = "Stored date cannot be read";

/// The text that says that a stored session contradicts itself.
pub const BAD_SESSION_MESSAGE: &'static str = "Stored session is inconsistent";

/// A value bound to a parameter of a statement.
#[derive(Debug, Clone)]
pub enum SqlValue {
    Integer(i64),
    Text(String),
    Null,
}

/// A bound value as a mathematical value.
pub enum SqlValueModel {
    Integer(int),
    Text(Seq<char>),
    Null,
}

impl View for SqlValue {
    type V = SqlValueModel;

    open spec fn view(&self) -> SqlValueModel {
        match self {
            SqlValue::Integer(n) => SqlValueModel::Integer(*n as int),
            SqlValue::Text(t) => SqlValueModel::Text(t@),
            SqlValue::Null => SqlValueModel::Null,
        }
    }
}

/// A named parameter with its value.
#[derive(Debug, Clone)]
pub struct Param {
    pub name: &'static str,
    pub value: SqlValue,
}

/// A parameter as a mathematical value.
pub struct ParamModel {
    pub name: Seq<char>,
    pub value: SqlValueModel,
}

impl View for Param {
    type V = ParamModel;

    open spec fn view(&self) -> ParamModel {
        ParamModel { name: self.name@, value: self.value@ }
    }
}

/// One SQL statement: its text and its parameters, in the order in which
/// the text names them.
#[derive(Debug, Clone)]
pub struct Statement {
    pub sql: String,
    pub params: Vec<Param>,
}

/// A statement as a mathematical value.
pub struct StatementModel {
    pub sql: Seq<char>,
    pub params: Seq<ParamModel>,
}

/// The views of a sequence of parameters.
pub open spec fn param_views(params: Seq<Param>) -> Seq<ParamModel> {
    params.map_values(|p: Param| p@)
}

impl View for Statement {
    type V = StatementModel;

    open spec fn view(&self) -> StatementModel {
        StatementModel { sql: self.sql@, params: param_views(self.params@) }
    }
}

/// A parameter that binds an integer.
pub open spec fn integer_param(name: Seq<char>, n: int) -> ParamModel {
    ParamModel { name, value: SqlValueModel::Integer(n) }
}

/// A parameter that binds a text.
pub open spec fn text_param(name: Seq<char>, text: Seq<char>) -> ParamModel {
    ParamModel { name, value: SqlValueModel::Text(text) }
}

/// A parameter that binds a text, or NULL where there is none.
pub open spec fn optional_text_param(name: Seq<char>, text: Option<Seq<char>>) -> ParamModel {
    ParamModel {
        name,
        value: match text {
            Some(t) => SqlValueModel::Text(t),
            None => SqlValueModel::Null,
        },
    }
}

/// A parameter that binds an identity. The store holds identities as signed
/// integers; one beyond their range is bound as NULL, which equals no row's.
pub open spec fn id_param(name: Seq<char>, id: u64) -> ParamModel {
    ParamModel {
        name,
        value: if id <= i64::MAX {
            SqlValueModel::Integer(id as int)
        } else {
            SqlValueModel::Null
        },
    }
}

/// The text that an instant is stored as: RFC 3339 in UTC.
pub open spec fn stored_instant(t: InstantModel) -> Seq<char> {
    rfc3339_text(t.seconds as i64, 0)
}

fn integer(name: &'static str, n: i64) -> (p: Param)
    ensures
        p@ == integer_param(name@, n as int),
{
    Param { name, value: SqlValue::Integer(n) }
}

fn text(name: &'static str, value: String) -> (p: Param)
    ensures
        p@ == text_param(name@, value@),
{
    Param { name, value: SqlValue::Text(value) }
}

fn optional_text(name: &'static str, value: &Option<String>) -> (p: Param)
    ensures
        p@ == optional_text_param(name@, option_text(*value)),
{
    match value {
        Some(t) => Param { name, value: SqlValue::Text(t.clone()) },
        None => Param { name, value: SqlValue::Null },
    }
}

fn identity(name: &'static str, id: u64) -> (p: Param)
    ensures
        p@ == id_param(name@, id),
{
    if id <= 9_223_372_036_854_775_807 {
        Param { name, value: SqlValue::Integer(id as i64) }
    } else {
        Param { name, value: SqlValue::Null }
    }
}

/// The text under which an instant is stored.
pub fn storage_text(t: &Instant) -> (s: String)
    ensures
        s@ == stored_instant(t@),
{
    t.in_utc().to_rfc3339()
}

/// The small integer of an enumeration as a bound value.
fn code(name: &'static str, n: usize) -> (p: Param)
    requires
        n <= 4,
    ensures
        p@ == integer_param(name@, n as int),
{
    integer(name, n as i64)
}

/// The parameters that store a task.
pub open spec fn task_params(t: TaskModel) -> Seq<ParamModel> {
    seq![
        integer_param(":status"@, task_status_code(t.status)),
        text_param(":title"@, t.title),
        text_param(":due_date"@, stored_instant(t.due)),
        integer_param(":priority"@, priority_code(t.priority)),
        optional_text_param(":category"@, t.category),
    ]
}

/// The parameters that store a new session.
pub open spec fn session_params(s: PomoModel) -> Seq<ParamModel> {
    seq![
        integer_param(":type"@, pomo_type_code(s.kind)),
        text_param(":title"@, s.title),
        text_param(":start_time"@, stored_instant(s.start)),
        integer_param(":duration"@, stored_number(s.duration)),
        integer_param(":status"@, pomo_status_code(s.status)),
        optional_text_param(":category"@, s.category),
    ]
}

/// The parameters that seal a stored session.
pub open spec fn finalize_params(s: PomoModel) -> Seq<ParamModel> {
    seq![
        integer_param(":status"@, pomo_status_code(s.status)),
        text_param(":end_date"@, stored_instant(s.end->0)),
        id_param(":id"@, s.id),
    ]
}

/// The statement that reads one task by its identity.
pub fn get_task_by_id(task_id: u64) -> (st: Statement)
    ensures
        st@.sql == GET_TASK_BY_ID@,
        st@.params == seq![id_param(":id"@, task_id)],
{
    let params = vec![identity(":id", task_id)];
    Statement { sql: String::from_str(GET_TASK_BY_ID), params }
}

/// The statement that marks one task as done.
pub fn done_task(task_id: u64) -> (st: Statement)
    ensures
        st@.sql == DONE_TASK@,
        st@.params == seq![id_param(":id"@, task_id)],
{
    let params = vec![identity(":id", task_id)];
    Statement { sql: String::from_str(DONE_TASK), params }
}

/// The statement that stores a new task.
pub fn save_task(task: &Task) -> (st: Statement)
    ensures
        st@.sql == INSERT_TASK@,
        st@.params == task_params(task@),
{
    let params = vec![
        code(":status", task.status.to_usize()),
        text(":title", task.title.clone()),
        text(":due_date", storage_text(&task.due_date)),
        code(":priority", task.priority.to_usize()),
        optional_text(":category", &task.category),
    ];
    Statement { sql: String::from_str(INSERT_TASK), params }
}

/// The statement that stores a new session and hands back its identity.
pub fn add_pomodoro(session: &PomoTask) -> (st: Statement)
    ensures
        st@.sql == INSERT_POMO@,
        st@.params == session_params(session@),
{
    let params = vec![
        code(":type", session.pomo_type.to_usize()),
        text(":title", session.title.clone()),
        text(":start_time", storage_text(&session.start_time)),
        integer(":duration", session.duration.to_i64()),
        code(":status", session.status.to_usize()),
        optional_text(":category", &session.category),
    ];
    Statement { sql: String::from_str(INSERT_POMO), params }
}

/// The statement that seals a stored session with its status and its end.
/// Only a session that was finalized can be sealed: to store a running one
/// as its final state is a mistake of the caller.
pub fn update_pomodoro(session: &PomoTask) -> (st: Statement)
    requires
        session_well_formed(session@),
        session@.status != PomoStatus::Running,
    ensures
        st@.sql == UPDATE_POMODORO@,
        st@.params == finalize_params(session@),
{
    let end = match &session.end_time {
        Some(end) => storage_text(end),
        None => String::new(),
    };
    let params = vec![
        code(":status", session.status.to_usize()),
        text(":end_date", end),
        identity(":id", session.id),
    ];
    Statement { sql: String::from_str(UPDATE_POMODORO), params }
}

/// What an update that should have changed one row says about its count:
/// it failed where no row was changed.
pub fn confirm_update(rows_affected: usize) -> (r: Result<(), Error>)
    ensures
        r is Ok <==> rows_affected > 0,
        r matches Err(e) ==> e@ == ErrorModel::Persistence(NO_ROW_MESSAGE@),
{
    if rows_affected == 0 {
        Err(Error::Persistence(String::from_str(NO_ROW_MESSAGE)))
    } else {
        Ok(())
    }
}

/// The decision on marking a task as done, given what the store holds under
/// its identity: no task is not found, a done one is refused, an open one is
/// handed back as done, for the caller to store.
pub open spec fn done_decision(found: Option<TaskModel>) -> Result<TaskModel, ErrorModel> {
    match found {
        None => Err(ErrorModel::NotFound),
        Some(t) => marked_done(t),
    }
}

/// Decides on marking a task as done before anything is updated.
pub fn decide_done(found: Option<Task>) -> (r: Result<Task, Error>)
    ensures
        r is Ok <==> done_decision(task_view(found)) is Ok,
        r matches Ok(t) ==> Ok::<TaskModel, ErrorModel>(t@) == done_decision(task_view(found)),
        r matches Err(e) ==> Err::<TaskModel, ErrorModel>(e@) == done_decision(task_view(found)),
{
    match found {
        None => Err(Error::NotFound),
        Some(task) => {
            let mut task = task;
            match task.mark_done() {
                Ok(()) => Ok(task),
                Err(e) => Err(e),
            }
        },
    }
}

/// The view of a task that may be missing.
pub open spec fn task_view(found: Option<Task>) -> Option<TaskModel> {
    match found {
        Some(t) => Some(t@),
        None => None,
    }
}

/// The path of the store's directory below a home directory.
pub fn database_dir(home: &str) -> (path: String)
    ensures
        path@ == home@ + DB_FILE_PATH@,
{
    String::from_str(home).concat(DB_FILE_PATH)
}

/// The path of the store's file below a home directory.
pub fn database_file(home: &str) -> (path: String)
    ensures
        path@ == home@ + DB_FILE_PATH@ + DB_FILE_NAME@,
{
    String::from_str(home).concat(DB_FILE_PATH).concat(DB_FILE_NAME)
}

/// The plain values of one row of the tasks table.
#[derive(Debug, Clone)]
pub struct TaskRow {
    pub id: u64,
    pub status: usize,
    pub title: String,
    pub due_date: String,
    pub priority: usize,
    pub category: Option<String>,
}

/// A row of the tasks table as a mathematical value.
pub struct TaskRowModel {
    pub id: u64,
    pub status: usize,
    pub title: Seq<char>,
    pub due_date: Seq<char>,
    pub priority: usize,
    pub category: Option<Seq<char>>,
}

impl View for TaskRow {
    type V = TaskRowModel;

    open spec fn view(&self) -> TaskRowModel {
        TaskRowModel {
            id: self.id,
            status: self.status,
            title: self.title@,
            due_date: self.due_date@,
            priority: self.priority,
            category: option_text(self.category),
        }
    }
}

/// The task that a row stands for, where `due` is the instant that was read
/// from the row's date text, if one was.
pub open spec fn task_of_row(row: TaskRowModel, due: Option<InstantModel>) -> Result<
    TaskModel,
    ErrorModel,
> {
    match due {
        Some(due) => Ok(
            TaskModel {
                id: row.id,
                status: task_status_of_code(row.status as int),
                title: row.title,
                due,
                priority: priority_of_code(row.priority as int),
                category: row.category,
            },
        ),
        None => Err(ErrorModel::Persistence(BAD_DATE_MESSAGE@)),
    }
}

/// Makes a task of a row and of the instant read from its date text.
pub fn task_from_parts(row: TaskRow, due: Option<Instant>) -> (r: Result<Task, Error>)
    ensures
        r is Ok <==> due is Some,
        r matches Ok(t) ==> Ok::<TaskModel, ErrorModel>(t@) == task_of_row(row@, option_instant(due)),
        r matches Err(e) ==> Err::<TaskModel, ErrorModel>(e@) == task_of_row(
            row@,
            option_instant(due),
        ),
{
    match due {
        Some(due_date) => Ok(
            Task {
                id: row.id,
                status: TaskStatus::from_usize(row.status),
                title: row.title,
                due_date,
                priority: Priority::from_usize(row.priority),
                category: row.category,
            },
        ),
        None => Err(Error::Persistence(String::from_str(BAD_DATE_MESSAGE))),
    }
}

/// Reads a task from a row. The row is refused where its date text is no
/// RFC 3339 instant in range.
pub fn parse_task(row: TaskRow) -> (r: Result<Task, Error>)
    ensures
        r is Ok <==> instant_of(rfc3339_parts(row@.due_date)) is Some,
        r matches Ok(t) ==> Ok::<TaskModel, ErrorModel>(t@) == task_of_row(
            row@,
            instant_of(rfc3339_parts(row@.due_date)),
        ),
        r matches Err(e) ==> Err::<TaskModel, ErrorModel>(e@) == task_of_row(
            row@,
            instant_of(rfc3339_parts(row@.due_date)),
        ),
{
    let due = Instant::parse_rfc3339(row.due_date.as_str());
    task_from_parts(row, due)
}

/// The plain values of one row of the sessions table.
#[derive(Debug, Clone)]
pub struct SessionRow {
    pub id: u64,
    pub kind: usize,
    pub title: String,
    pub start_time: String,
    pub end_time: Option<String>,
    pub duration: i64,
    pub status: usize,
    pub category: Option<String>,
}

/// A row of the sessions table as a mathematical value.
pub struct SessionRowModel {
    pub id: u64,
    pub kind: usize,
    pub title: Seq<char>,
    pub start_time: Seq<char>,
    pub end_time: Option<Seq<char>>,
    pub duration: i64,
    pub status: usize,
    pub category: Option<Seq<char>>,
}

impl View for SessionRow {
    type V = SessionRowModel;

    open spec fn view(&self) -> SessionRowModel {
        SessionRowModel {
            id: self.id,
            kind: self.kind,
            title: self.title@,
            start_time: self.start_time@,
            end_time: option_text(self.end_time),
            duration: self.duration,
            status: self.status,
            category: option_text(self.category),
        }
    }
}

/// The session that a row stands for, where `start` and `end` are the
/// instants that were read from the row's two date texts, if they were. A
/// row without an end text has no end; a row whose fields contradict each
/// other is refused.
pub open spec fn session_of_row(
    row: SessionRowModel,
    start: Option<InstantModel>,
    end: Option<InstantModel>,
) -> Result<PomoModel, ErrorModel> {
    if start is None || (row.end_time is Some && end is None) {
        Err(ErrorModel::Persistence(BAD_DATE_MESSAGE@))
    } else {
        let session = PomoModel {
            id: row.id,
            status: pomo_status_of_code(row.status as int),
            kind: pomo_type_of_code(row.kind as int),
            title: row.title,
            duration: duration_of_seconds(row.duration as int),
            category: row.category,
            start: start->0,
            end: if row.end_time is Some {
                end
            } else {
                None
            },
        };
        if session_well_formed(session) {
            Ok(session)
        } else {
            Err(ErrorModel::Persistence(BAD_SESSION_MESSAGE@))
        }
    }
}

/// Makes a session of a row and of the instants read from its date texts.
pub fn session_from_parts(row: SessionRow, start: Option<Instant>, end: Option<Instant>) -> (r:
    Result<PomoTask, Error>)
    ensures
        r is Ok <==> session_of_row(row@, option_instant(start), option_instant(end)) is Ok,
        r matches Ok(s) ==> Ok::<PomoModel, ErrorModel>(s@) == session_of_row(
            row@,
            option_instant(start),
            option_instant(end),
        ),
        r matches Err(e) ==> Err::<PomoModel, ErrorModel>(e@) == session_of_row(
            row@,
            option_instant(start),
            option_instant(end),
        ),
{
    let start_time = match start {
        Some(t) => t,
        None => {
            return Err(Error::Persistence(String::from_str(BAD_DATE_MESSAGE)));
        },
    };
    let end_time = match &row.end_time {
        Some(_) => {
            if end.is_none() {
                return Err(Error::Persistence(String::from_str(BAD_DATE_MESSAGE)));
            }
            end
        },
        None => None,
    };
    let session = PomoTask {
        id: row.id,
        status: PomoStatus::from_usize(row.status),
        pomo_type: PomoType::from_usize(row.kind),
        title: row.title,
        duration: DurationField::from_i64(row.duration),
        category: row.category,
        start_time,
        end_time,
    };
    if session.is_well_formed() {
        Ok(session)
    } else {
        Err(Error::Persistence(String::from_str(BAD_SESSION_MESSAGE)))
    }
}

/// The instant read from a date text that may be missing.
pub open spec fn read_end(end_time: Option<Seq<char>>) -> Option<InstantModel> {
    match end_time {
        Some(text) => instant_of(rfc3339_parts(text)),
        None => None,
    }
}

/// Reads a session from a row. The row is refused where a date text is no
/// RFC 3339 instant in range, or where its fields contradict each other.
pub fn parse_pomo_task(row: SessionRow) -> (r: Result<PomoTask, Error>)
    ensures
        r is Ok <==> session_of_row(
            row@,
            instant_of(rfc3339_parts(row@.start_time)),
            read_end(row@.end_time),
        ) is Ok,
        r matches Ok(s) ==> Ok::<PomoModel, ErrorModel>(s@) == session_of_row(
            row@,
            instant_of(rfc3339_parts(row@.start_time)),
            read_end(row@.end_time),
        ),
        r matches Err(e) ==> Err::<PomoModel, ErrorModel>(e@) == session_of_row(
            row@,
            instant_of(rfc3339_parts(row@.start_time)),
            read_end(row@.end_time),
        ),
{
    let start = Instant::parse_rfc3339(row.start_time.as_str());
    let end = match &row.end_time {
        Some(text) => Instant::parse_rfc3339(text.as_str()),
        None => None,
    };
    session_from_parts(row, start, end)
}

/// An instant shown in UTC.
pub open spec fn in_utc(t: InstantModel) -> InstantModel {
    InstantModel { seconds: t.seconds, offset: 0 }
}

/// The row under which a session is stored: what the statements of
/// [`add_pomodoro`] and [`update_pomodoro`] together leave in the table.
pub open spec fn row_of_session(s: PomoModel) -> SessionRowModel {
    SessionRowModel {
        id: s.id,
        kind: pomo_type_code(s.kind) as usize,
        title: s.title,
        start_time: stored_instant(s.start),
        end_time: match s.end {
            Some(end) => Some(stored_instant(end)),
            None => None,
        },
        duration: stored_number(s.duration) as i64,
        status: pomo_status_code(s.status) as usize,
        category: s.category,
    }
}

/// Round trip of a session through the store: a well-formed session whose
/// length is a whole number of seconds, at least one, is read back from its
/// row with the same identity, title, kind, length, category and status,
/// with its start, and with an end exactly where it had one. It is given
/// that the stored date texts are read back as the instants they were
/// written from, shown in UTC.
pub proof fn law_session_round_trip(s: PomoModel)
    requires
        session_well_formed(s),
        s.duration >= 1000,
        s.duration % 1000 == 0,
        s.duration <= i64::MAX,
    ensures
        session_of_row(
            row_of_session(s),
            Some(in_utc(s.start)),
            match s.end {
                Some(end) => Some(in_utc(end)),
                None => None,
            },
        ) == Ok::<PomoModel, ErrorModel>(
            PomoModel {
                start: in_utc(s.start),
                end: match s.end {
                    Some(end) => Some(in_utc(end)),
                    None => None,
                },
                ..s
            },
        ),
{
}

/// The tasks that some rows stand for, in their order; the first row that
/// cannot be read spoils the whole listing.
pub open spec fn tasks_of_rows(rows: Seq<TaskRowModel>) -> Result<Seq<TaskModel>, ErrorModel>
    decreases rows.len(),
{
    if rows.len() == 0 {
        Ok(Seq::empty())
    } else {
        match tasks_of_rows(rows.drop_last()) {
            Err(e) => Err(e),
            Ok(tasks) => match task_of_row(rows.last(), instant_of(rfc3339_parts(rows.last().due_date))) {
                Ok(task) => Ok(tasks.push(task)),
                Err(e) => Err(e),
            },
        }
    }
}

/// The views of a sequence of rows.
pub open spec fn task_row_views(rows: Seq<TaskRow>) -> Seq<TaskRowModel> {
    rows.map_values(|r: TaskRow| r@)
}

/// The views of a sequence of tasks.
pub open spec fn task_views(tasks: Seq<Task>) -> Seq<TaskModel> {
    tasks.map_values(|t: Task| t@)
}

/// Reads the tasks of a listing from its rows. There are no partial
/// results: where one row cannot be read, the listing fails with that row's
/// error.
pub fn parse_tasks(rows: Vec<TaskRow>) -> (r: Result<Vec<Task>, Error>)
    ensures
        r is Ok <==> tasks_of_rows(task_row_views(rows@)) is Ok,
        r matches Ok(tasks) ==> Ok::<Seq<TaskModel>, ErrorModel>(task_views(tasks@))
            == tasks_of_rows(task_row_views(rows@)),
        r matches Err(e) ==> Err::<Seq<TaskModel>, ErrorModel>(e@) == tasks_of_rows(
            task_row_views(rows@),
        ),
{
    let ghost all = task_row_views(rows@);
    let mut tasks: Vec<Task> = Vec::new();
    let mut i: usize = 0;
    proof {
        assert(task_views(tasks@) =~= Seq::<TaskModel>::empty());
    }
    while i < rows.len()
        invariant
            i <= rows.len(),
            all == task_row_views(rows@),
            tasks@.len() == i,
            tasks_of_rows(all.subrange(0, i as int)) == Ok::<Seq<TaskModel>, ErrorModel>(
                task_views(tasks@),
            ),
        decreases rows.len() - i,
    {
        let ghost before = all.subrange(0, i as int);
        let ghost grown = all.subrange(0, i + 1);
        proof {
            assert(grown.drop_last() =~= before);
        }
        let row = rows[i].clone_row();
        match parse_task(row) {
            Ok(task) => {
                let ghost earlier = tasks@;
                tasks.push(task);
                proof {
                    assert(task_views(tasks@) =~= task_views(earlier).push(task@));
                }
            },
            Err(e) => {
                proof {
                    lemma_failed_prefix(all, i + 1);
                }
                return Err(e);
            },
        }
        i += 1;
    }
    proof {
        assert(all.subrange(0, i as int) =~= all);
    }
    Ok(tasks)
}

/// A listing whose beginning cannot be read cannot be read, and fails with
/// the same error.
pub proof fn lemma_failed_prefix(rows: Seq<TaskRowModel>, n: int)
    requires
        0 <= n <= rows.len(),
        tasks_of_rows(rows.subrange(0, n)) is Err,
    ensures
        tasks_of_rows(rows) == tasks_of_rows(rows.subrange(0, n)),
    decreases rows.len() - n,
{
    if n < rows.len() {
        let longer = rows.subrange(0, n + 1);
        assert(longer.drop_last() =~= rows.subrange(0, n));
        lemma_failed_prefix(rows, n + 1);
    } else {
        assert(rows.subrange(0, n) =~= rows);
    }
}

impl TaskRow {
    /// A copy of the row.
    pub fn clone_row(&self) -> (row: TaskRow)
        ensures
            row@ == self@,
    {
        TaskRow {
            id: self.id,
            status: self.status,
            title: self.title.clone(),
            due_date: self.due_date.clone(),
            priority: self.priority,
            category: clone_option_text(&self.category),
        }
    }
}

/// The session that one row stands for, its date texts read.
pub open spec fn session_of_stored_row(row: SessionRowModel) -> Result<PomoModel, ErrorModel> {
    session_of_row(row, instant_of(rfc3339_parts(row.start_time)), read_end(row.end_time))
}

/// The sessions that some rows stand for, in their order; the first row that
/// cannot be read spoils the whole listing.
pub open spec fn sessions_of_rows(rows: Seq<SessionRowModel>) -> Result<Seq<PomoModel>, ErrorModel>
    decreases rows.len(),
{
    if rows.len() == 0 {
        Ok(Seq::empty())
    } else {
        match sessions_of_rows(rows.drop_last()) {
            Err(e) => Err(e),
            Ok(sessions) => match session_of_stored_row(rows.last()) {
                Ok(session) => Ok(sessions.push(session)),
                Err(e) => Err(e),
            },
        }
    }
}

/// The views of a sequence of rows.
pub open spec fn session_row_views(rows: Seq<SessionRow>) -> Seq<SessionRowModel> {
    rows.map_values(|r: SessionRow| r@)
}

/// The views of a sequence of sessions.
pub open spec fn session_views(sessions: Seq<PomoTask>) -> Seq<PomoModel> {
    sessions.map_values(|s: PomoTask| s@)
}

/// A listing whose beginning cannot be read cannot be read, and fails with
/// the same error.
pub proof fn lemma_failed_session_prefix(rows: Seq<SessionRowModel>, n: int)
    requires
        0 <= n <= rows.len(),
        sessions_of_rows(rows.subrange(0, n)) is Err,
    ensures
        sessions_of_rows(rows) == sessions_of_rows(rows.subrange(0, n)),
    decreases rows.len() - n,
{
    if n < rows.len() {
        let longer = rows.subrange(0, n + 1);
        assert(longer.drop_last() =~= rows.subrange(0, n));
        lemma_failed_session_prefix(rows, n + 1);
    } else {
        assert(rows.subrange(0, n) =~= rows);
    }
}

impl SessionRow {
    /// A copy of the row.
    pub fn clone_row(&self) -> (row: SessionRow)
        ensures
            row@ == self@,
    {
        SessionRow {
            id: self.id,
            kind: self.kind,
            title: self.title.clone(),
            start_time: self.start_time.clone(),
            end_time: clone_option_text(&self.end_time),
            duration: self.duration,
            status: self.status,
            category: clone_option_text(&self.category),
        }
    }
}

/// Reads the sessions of a listing from its rows. There are no partial
/// results: where one row cannot be read, the listing fails with that row's
/// error.
pub fn parse_pomo_tasks(rows: Vec<SessionRow>) -> (r: Result<Vec<PomoTask>, Error>)
    ensures
        r is Ok <==> sessions_of_rows(session_row_views(rows@)) is Ok,
        r matches Ok(sessions) ==> Ok::<Seq<PomoModel>, ErrorModel>(session_views(sessions@))
            == sessions_of_rows(session_row_views(rows@)),
        r matches Err(e) ==> Err::<Seq<PomoModel>, ErrorModel>(e@) == sessions_of_rows(
            session_row_views(rows@),
        ),
{
    let ghost all = session_row_views(rows@);
    let mut sessions: Vec<PomoTask> = Vec::new();
    let mut i: usize = 0;
    proof {
        assert(session_views(sessions@) =~= Seq::<PomoModel>::empty());
    }
    while i < rows.len()
        invariant
            i <= rows.len(),
            all == session_row_views(rows@),
            sessions@.len() == i,
            sessions_of_rows(all.subrange(0, i as int)) == Ok::<Seq<PomoModel>, ErrorModel>(
                session_views(sessions@),
            ),
        decreases rows.len() - i,
    {
        let ghost before = all.subrange(0, i as int);
        let ghost grown = all.subrange(0, i + 1);
        proof {
            assert(grown.drop_last() =~= before);
        }
        let row = rows[i].clone_row();
        match parse_pomo_task(row) {
            Ok(session) => {
                let ghost earlier = sessions@;
                sessions.push(session);
                proof {
                    assert(session_views(sessions@) =~= session_views(earlier).push(session@));
                }
            },
            Err(e) => {
                proof {
                    lemma_failed_session_prefix(all, i + 1);
                }
                return Err(e);
            },
        }
        i += 1;
    }
    proof {
        assert(all.subrange(0, i as int) =~= all);
    }
    Ok(sessions)
}

} // verus!
