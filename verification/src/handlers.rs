//! What each command does, as far as it can be decided without touching
//! the store, the terminal or the variables of the process.
//!
//! Each function here checks a request and answers with the statement to
//! run, or with the reason why nothing is to be run. Whoever calls runs the
//! statement and hands the rows to the functions that read them.

use vstd::prelude::*;
use vstd::string::*;
use crate::analyze::{analysis_verdict, window_of, AnalyzeArgs};
use crate::error::{Error, ErrorModel};
use crate::filter::{
    get_pomodoro, get_tasks, query_of, tasks_params, tasks_sql, LSArgs, LSArgsModel,
    TaskQueryModel, WINDOW_MESSAGE,
};
use crate::instant::{
    formatted_text, months_later, moved, Instant, InstantModel, DATE_PATTERN, DAY_SECONDS,
};
use crate::models::{names, CommandArgs, LSType, PomoStatus};
use crate::render::{colored, format_string_with_color, Color};
use crate::session::{finalized, session_verdict, session_well_formed, PomoModel, PomoTask};
use crate::store::{
    add_pomodoro, create_statements, database_dir, database_file, decide_done, done_decision,
    done_task, finalize_params, id_param, integer_param, save_task, schema, session_params,
    task_params, task_view, update_pomodoro, Statement, StatementModel, DB_FILE_NAME,
    DB_FILE_PATH, DONE_TASK, GET_POMODORO_LIST, INSERT_POMO, INSERT_TASK, UPDATE_POMODORO,
};
use crate::task::{task_verdict, Task, TaskModel};
use crate::text::join3;

verus! {

/// The text that says that no home directory is known.
pub const NO_HOME_MESSAGE: &'static str = "Could not get the home directory";

/// Where the home directory is, given the four variables that may name it:
/// the first of `HOME` and `USERPROFILE` that is set, else `HOMEDRIVE`
/// followed by `HOMEPATH` where both are set.
pub open spec fn home_of(
    home: Option<Seq<char>>,
    user_profile: Option<Seq<char>>,
    home_drive: Option<Seq<char>>,
    home_path: Option<Seq<char>>,
) -> Result<Seq<char>, Seq<char>> {
    if home is Some {
        Ok(home->0)
    } else if user_profile is Some {
        Ok(user_profile->0)
    } else if home_drive is Some && home_path is Some {
        Ok(home_drive->0 + home_path->0)
    } else {
        Err(NO_HOME_MESSAGE@)
    }
}

/// The text of a variable that may be unset.
pub open spec fn variable(v: Option<String>) -> Option<Seq<char>> {
    match v {
        Some(s) => Some(s@),
        None => None,
    }
}

/// Picks the home directory from the variables that may name it.
pub fn get_home_directory(
    home: Option<String>,
    user_profile: Option<String>,
    home_drive: Option<String>,
    home_path: Option<String>,
) -> (r: Result<String, String>)
    ensures
        r is Ok <==> home_of(
            variable(home),
            variable(user_profile),
            variable(home_drive),
            variable(home_path),
        ) is Ok,
        r matches Ok(path) ==> Ok::<Seq<char>, Seq<char>>(path@) == home_of(
            variable(home),
            variable(user_profile),
            variable(home_drive),
            variable(home_path),
        ),
        r matches Err(m) ==> m@ == NO_HOME_MESSAGE@,
{
    match home {
        Some(path) => {
            return Ok(path);
        },
        None => {},
    }
    match user_profile {
        Some(path) => {
            return Ok(path);
        },
        None => {},
    }
    match (home_drive, home_path) {
        (Some(drive), Some(path)) => Ok(drive.concat(path.as_str())),
        _ => Err(String::from_str(NO_HOME_MESSAGE)),
    }
}

/// What setting up the store takes: the directory to make, the file to open
/// and the statements to run in it, in order.
#[derive(Debug, Clone)]
pub struct InitPlan {
    pub directory: String,
    pub file: String,
    pub statements: Vec<&'static str>,
}

/// Plans the setting up of the store below a home directory.
pub fn handle_init_db(home_dir: &str) -> (plan: InitPlan)
    ensures
        plan.directory@ == home_dir@ + DB_FILE_PATH@,
        plan.file@ == home_dir@ + DB_FILE_PATH@ + DB_FILE_NAME@,
        names(plan.statements@) == schema(),
{
    InitPlan {
        directory: database_dir(home_dir),
        file: database_file(home_dir),
        statements: create_statements(),
    }
}

/// The line above a listing, where `date` is the text of the day on which
/// its window ends.
pub open spec fn listing_heading(date: Seq<char>) -> Seq<char> {
    colored("Results tasks with due_date as "@ + date + " or before:\n"@, Color::Green)
}

/// What a listing takes: the statement to run and the line to print above
/// the table.
#[derive(Debug, Clone)]
pub struct Listing {
    pub statement: Statement,
    pub heading: String,
    pub ls_type: LSType,
}

/// The statement of a listing request, by what it lists.
pub open spec fn listing_statement(args: LSArgsModel, now: InstantModel) -> StatementModel {
    if args.ls_type == LSType::Task {
        StatementModel {
            sql: tasks_sql(query_of(args, now)->Ok_0),
            params: tasks_params(query_of(args, now)->Ok_0),
        }
    } else {
        StatementModel {
            sql: GET_POMODORO_LIST@,
            params: seq![integer_param(":limit"@, args.limit as int)],
        }
    }
}

/// Checks a listing request and answers with its statement and heading. A
/// request that is not acceptable is refused before anything is built.
pub fn handle_ls(args: &LSArgs, now: &Instant) -> (r: Result<Listing, Error>)
    ensures
        r is Ok <==> query_of(args@, now@) is Ok,
        r matches Ok(listing) ==> {
            &&& listing.ls_type == args@.ls_type
            &&& listing.statement@ == listing_statement(args@, now@)
            &&& listing.heading@ == listing_heading(
                formatted_text(
                    (now@.seconds + args@.days * DAY_SECONDS) as i64,
                    now@.offset as i32,
                    DATE_PATTERN@,
                ),
            )
        },
        r matches Err(e) ==> Err::<TaskQueryModel, ErrorModel>(e@) == query_of(args@, now@),
{
    let tasks = match get_tasks(args, now) {
        Ok(statement) => statement,
        Err(e) => {
            return Err(e);
        },
    };
    let statement = match args.ls_type {
        LSType::Task => tasks,
        LSType::Pomo => match get_pomodoro(args, now) {
            Ok(statement) => statement,
            Err(e) => {
                return Err(e);
            },
        },
    };
    let end = match now.plus_days(args.days as u64) {
        Some(end) => end,
        None => {
            return Err(Error::Validation(String::from_str(WINDOW_MESSAGE)));
        },
    };
    let sentence = join3("Results tasks with due_date as ", end.format_date().as_str(), " or before:\n");
    let heading = format_string_with_color(sentence.as_str(), Color::Green);
    Ok(Listing { statement, heading, ls_type: args.ls_type })
}

/// Checks a new task at the instant `now` and answers with the statement
/// that stores it.
pub fn handel_add_task(task: &Task, now: &Instant) -> (r: Result<Statement, Error>)
    ensures
        r is Ok <==> task_verdict(task@, now@) is Ok,
        r matches Ok(st) ==> st@.sql == INSERT_TASK@ && st@.params == task_params(task@),
        r matches Err(e) ==> Err::<(), Seq<char>>(e->Validation_0@) == task_verdict(task@, now@)
            && e is Validation,
{
    match task.validate(now) {
        Ok(()) => Ok(save_task(task)),
        Err(message) => Err(Error::Validation(message)),
    }
}

/// What an analysis covers, or why there is none: a request that reaches
/// too far is refused, and so is one whose window begins out of range.
pub open spec fn analysis_of(days: InstantModel, now: InstantModel) -> Result<
    (InstantModel, InstantModel),
    ErrorModel,
> {
    match analysis_verdict(
        days,
        moved(now, months_later(now.seconds as i64, now.offset as i32, 12)),
    ) {
        Err(m) => Err(ErrorModel::Validation(m)),
        Ok(_) => match window_of(days, now) {
            Some(window) => Ok(window),
            None => Err(ErrorModel::Validation(WINDOW_MESSAGE@)),
        },
    }
}

/// Checks an analysis request at the instant `now` and answers with the
/// first and the last instant that it covers.
pub fn handle_analyze(analyze_args: &AnalyzeArgs, now: &Instant) -> (r: Result<
    (Instant, Instant),
    Error,
>)
    ensures
        r is Ok <==> analysis_of(analyze_args.days@, now@) is Ok,
        r matches Ok((start, end)) ==> Ok::<(InstantModel, InstantModel), ErrorModel>(
            (start@, end@),
        ) == analysis_of(analyze_args.days@, now@),
        r matches Err(e) ==> Err::<(InstantModel, InstantModel), ErrorModel>(e@) == analysis_of(
            analyze_args.days@,
            now@,
        ),
{
    match analyze_args.validate(now) {
        Err(message) => {
            return Err(Error::Validation(message));
        },
        Ok(()) => {},
    }
    match analyze_args.window(now) {
        Some(window) => Ok(window),
        None => Err(Error::Validation(String::from_str(WINDOW_MESSAGE))),
    }
}

/// What marking a task as done takes: the task as it will be, and the
/// statement that stores the change.
#[derive(Debug, Clone)]
pub struct Completion {
    pub task: Task,
    pub statement: Statement,
}

/// Decides on marking a task as done, given what the store holds under the
/// identity: a missing task is not found and a done one is refused, both
/// before any update; an open one is answered as done, with the statement
/// that stores the change.
pub fn handle_done(found: Option<Task>) -> (r: Result<Completion, Error>)
    ensures
        r is Ok <==> done_decision(task_view(found)) is Ok,
        r matches Ok(c) ==> Ok::<TaskModel, ErrorModel>(c.task@) == done_decision(task_view(found))
            && c.statement@.sql == DONE_TASK@ && c.statement@.params == seq![
            id_param(":id"@, c.task@.id),
        ],
        r matches Err(e) ==> Err::<TaskModel, ErrorModel>(e@) == done_decision(task_view(found)),
{
    match decide_done(found) {
        Ok(task) => {
            let statement = done_task(task.id);
            Ok(Completion { task, statement })
        },
        Err(e) => Err(e),
    }
}

/// Checks a session request and answers with the statement that stores the
/// new session.
pub fn handle_pomodoro(pomo_task: &PomoTask, now: &Instant) -> (r: Result<Statement, Error>)
    ensures
        r is Ok <==> session_verdict(pomo_task@) is Ok,
        r matches Ok(st) ==> st@.sql == INSERT_POMO@ && st@.params == session_params(pomo_task@),
        r matches Err(e) ==> Err::<(), Seq<char>>(e->Validation_0@) == session_verdict(
            pomo_task@,
        ) && e is Validation,
{
    match pomo_task.validate(now) {
        Ok(()) => Ok(add_pomodoro(pomo_task)),
        Err(message) => Err(Error::Validation(message)),
    }
}

/// Seals a session when its control loop has ended: finalizes it at `now`
/// with the outcome and answers with the statement that stores its status
/// and end.
pub fn control_terminal(pomo_task: &mut PomoTask, now: Instant, outcome: PomoStatus) -> (r: Result<
    Statement,
    Error,
>)
    requires
        outcome != PomoStatus::Running,
    ensures
        r is Ok <==> old(pomo_task)@.status == PomoStatus::Running,
        r matches Ok(st) ==> {
            &&& Ok::<PomoModel, ErrorModel>(final(pomo_task)@) == finalized(
                old(pomo_task)@,
                now@,
                outcome,
            )
            &&& session_well_formed(final(pomo_task)@)
            &&& st@.sql == UPDATE_POMODORO@
            &&& st@.params == finalize_params(final(pomo_task)@)
        },
        r matches Err(e) ==> Err::<PomoModel, ErrorModel>(e@) == finalized(
            old(pomo_task)@,
            now@,
            outcome,
        ) && *final(pomo_task) == *old(pomo_task),
{
    match pomo_task.finalize(now, outcome) {
        Ok(()) => Ok(update_pomodoro(pomo_task)),
        Err(e) => Err(e),
    }
}

} // verus!
