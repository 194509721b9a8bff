//! Tasks: what they hold, when a new one is acceptable, how one is shown,
//! and the one change a stored task can undergo.

use vstd::prelude::*;
use vstd::string::*;
use crate::error::{Error, ErrorModel};
use crate::instant::{formatted_text, shifted, Instant, InstantModel, DATE_PATTERN, DAY_SECONDS};
use crate::models::{
    names, priority_name, task_status_name, texts, CommandArgs, Priority, TableRow, TaskStatus,
};
use crate::text::{blank, clone_option_text, decimal, decimal_string, is_blank, option_text, text_or};

verus! {

/// The text that says that a title is missing.
pub const EMPTY_TITLE_MESSAGE: &'static str = "Title cannot be empty";

/// The text that says that a due date lies in the past.
pub const PAST_DUE_MESSAGE: &'static str = "Due date cannot be in the past";

/// A to-do item.
#[derive(Debug, Clone)]
pub struct Task {
    /// Assigned by the store; zero until then.
    pub id: u64,
    pub status: TaskStatus,
    pub title: String,
    pub due_date: Instant,
    pub priority: Priority,
    pub category: Option<String>,
}

/// A task as a mathematical value.
pub struct TaskModel {
    pub id: u64,
    pub status: TaskStatus,
    pub title: Seq<char>,
    pub due: InstantModel,
    pub priority: Priority,
    pub category: Option<Seq<char>>,
}

impl View for Task {
    type V = TaskModel;

    open spec fn view(&self) -> TaskModel {
        TaskModel {
            id: self.id,
            status: self.status,
            title: self.title@,
            due: self.due_date@,
            priority: self.priority,
            category: option_text(self.category),
        }
    }
}

/// The verdict on a new task at the instant it is made: acceptable, or why not.
pub open spec fn task_verdict(t: TaskModel, now: InstantModel) -> Result<(), Seq<char>> {
    if blank(t.title) {
        Err(EMPTY_TITLE_MESSAGE@)
    } else if t.due.seconds < now.seconds {
        Err(PAST_DUE_MESSAGE@)
    } else {
        Ok(())
    }
}

/// The column titles of a table of tasks.
pub open spec fn task_headers() -> Seq<Seq<char>> {
    seq!["id"@, "title"@, "due-date"@, "priority"@, "category"@, "status"@]
}

/// The cells of a task's row, where `due` is the text of its due date.
pub open spec fn task_row(t: TaskModel, due: Seq<char>) -> Seq<Seq<char>> {
    seq![
        decimal(t.id as nat),
        t.title,
        due,
        priority_name(t.priority),
        match t.category {
            Some(c) => c,
            None => "-"@,
        },
        task_status_name(t.status),
    ]
}

/// Marking a task as done: refused where it is done already.
pub open spec fn marked_done(t: TaskModel) -> Result<TaskModel, ErrorModel> {
    if t.status == TaskStatus::Done {
        Err(ErrorModel::AlreadyDone)
    } else {
        Ok(TaskModel { status: TaskStatus::Done, ..t })
    }
}

impl Task {
    /// A task that is not stored yet: open, without an identity.
    pub fn new(title: String, due_date: Instant, priority: Priority, category: Option<String>) -> (t: Task)
        ensures
            t@ == (TaskModel {
                id: 0,
                status: TaskStatus::Open,
                title: title@,
                due: due_date@,
                priority,
                category: option_text(category),
            }),
    {
        Task { id: 0, status: TaskStatus::Open, title, due_date, priority, category }
    }

    /// The task that stands where none was described: untitled, of medium
    /// priority, due one day after `now`. There is none where that day is
    /// out of range.
    pub fn default_at(now: &Instant) -> (t: Option<Task>)
        ensures
            t is Some <==> shifted(now@, DAY_SECONDS as int) is Some,
            t matches Some(task) ==> task@ == (TaskModel {
                id: 0,
                status: TaskStatus::Open,
                title: Seq::<char>::empty(),
                due: shifted(now@, DAY_SECONDS as int)->0,
                priority: Priority::Medium,
                category: None,
            }),
    {
        match now.plus_days(1) {
            Some(due) => Some(Task::new(String::new(), due, Priority::Medium, None)),
            None => None,
        }
    }

    /// Marks the task as done. A task that is done already is left as it is
    /// and the call is refused.
    pub fn mark_done(&mut self) -> (r: Result<(), Error>)
        ensures
            r is Ok <==> marked_done(old(self)@) is Ok,
            r is Ok ==> Ok::<TaskModel, ErrorModel>(final(self)@) == marked_done(old(self)@),
            r matches Err(e) ==> Err::<TaskModel, ErrorModel>(e@) == marked_done(old(self)@)
                && *final(self) == *old(self),
            final(self)@.status == TaskStatus::Done,
    {
        if self.status.is_done() {
            Err(Error::AlreadyDone)
        } else {
            self.status = TaskStatus::Done;
            Ok(())
        }
    }

    /// A copy of the task.
    pub fn copy(&self) -> (t: Task)
        ensures
            t@ == self@,
    {
        Task {
            id: self.id,
            status: self.status,
            title: self.title.clone(),
            due_date: self.due_date,
            priority: self.priority,
            category: clone_option_text(&self.category),
        }
    }
}

impl CommandArgs for Task {
    open spec fn verdict(&self, now: InstantModel) -> Result<(), Seq<char>> {
        task_verdict(self@, now)
    }

    /// A task is acceptable when its title is not blank and it is not due
    /// before `now`.
    fn validate(&self, now: &Instant) -> (r: Result<(), String>) {
        if is_blank(self.title.as_str()) {
            return Err(String::from_str(EMPTY_TITLE_MESSAGE));
        }
        if self.due_date.is_before(now) {
            return Err(String::from_str(PAST_DUE_MESSAGE));
        }
        Ok(())
    }
}

impl TableRow for Task {
    open spec fn header_cells(&self) -> Seq<Seq<char>> {
        task_headers()
    }

    open spec fn row_cells(&self) -> Seq<Seq<char>> {
        task_row(
            self@,
            formatted_text(self@.due.seconds as i64, self@.due.offset as i32, DATE_PATTERN@),
        )
    }

    fn headers(&self) -> (h: Vec<&'static str>) {
        vec!["id", "title", "due-date", "priority", "category", "status"]
    }

    fn row(&self) -> (r: Vec<String>) {
        let r = vec![
            decimal_string(self.id),
            self.title.clone(),
            self.due_date.format_date(),
            String::from_str(self.priority.name()),
            text_or(&self.category, "-"),
            String::from_str(self.status.name()),
        ];
        assert(texts(r@) =~= task_row(
            self@,
            formatted_text(self@.due.seconds as i64, self@.due.offset as i32, DATE_PATTERN@),
        ));
        r
    }
}

/// Idempotence of marking done: on a task that is not done the first call
/// succeeds and leaves it done; a second call on the result is refused as
/// already done and changes nothing. The task is done after either call.
pub proof fn law_mark_done_once(t: TaskModel)
    requires
        t.status != TaskStatus::Done,
    ensures
        marked_done(t) is Ok,
        marked_done(t)->Ok_0 == (TaskModel { status: TaskStatus::Done, ..t }),
        marked_done(marked_done(t)->Ok_0) == Err::<TaskModel, ErrorModel>(ErrorModel::AlreadyDone),
{
}

} // verus!
