//! Listing requests and the queries they become.
//!
//! A listing request names a few optional restrictions. The builder checks
//! the request, turns it into a list of predicates, each with its bound
//! parameter, and joins them into one statement. What a predicate means is
//! stated here too, so that what a query admits can be reasoned about.

use vstd::prelude::*;
use vstd::string::*;
use crate::error::{Error, ErrorModel};
use crate::instant::{shifted, Instant, InstantModel, DAY_SECONDS};
use crate::models::{priority_code, task_status_code, CommandArgs, LSType, Priority, TaskStatus};
use crate::store::{
    integer_param, param_views, storage_text, stored_instant, text_param, Param, ParamModel,
    SqlValue, Statement, GET_POMODORO_LIST,
};
use crate::task::TaskModel;
use crate::text::option_text;

verus! {

/// The most rows a listing may ask for.
pub const MAX_LIMIT: usize = 100;

/// The rows a listing gets when it does not say.
pub const DEFAULT_LIMIT: usize = 50;

/// The most days a listing may look ahead.
pub const MAX_DAYS: usize = 365;

/// The days a listing looks ahead when it does not say.
pub const DEFAULT_DAYS: usize = 1;

/// The text that says that a listing asks for too many rows.
pub const LIMIT_MESSAGE: &'static str = "Limit cannot be greater than 100";

/// The text that says that a listing looks too far ahead.
pub const DAYS_MESSAGE: &'static str = "Days cannot be greater than 365";

/// The text that says that the window of a listing ends out of range.
pub const WINDOW_MESSAGE: &'static str = "Date window is out of range";

/// The start of the statement that lists tasks.
pub const TASKS_SELECT: &'static str =
    "SELECT id, status, title, due_date, priority, category FROM tasks";

/// The end of the statement that lists tasks: newest first, and among tasks
/// created in the same second the one with the smaller identity first.
pub const TASKS_ORDER: &'static str = " ORDER BY created_at DESC, id ASC LIMIT :limit";

/// A request for a listing.
#[derive(Debug, Clone)]
pub struct LSArgs {
    pub limit: usize,
    pub days: usize,
    pub category: Option<String>,
    pub priority: Option<Priority>,
    /// No status asks for open tasks only; `All` asks for every status.
    pub status: Option<TaskStatus>,
    pub ls_type: LSType,
}

/// A listing request as a mathematical value.
pub struct LSArgsModel {
    pub limit: usize,
    pub days: usize,
    pub category: Option<Seq<char>>,
    pub priority: Option<Priority>,
    pub status: Option<TaskStatus>,
    pub ls_type: LSType,
}

impl View for LSArgs {
    type V = LSArgsModel;

    open spec fn view(&self) -> LSArgsModel {
        LSArgsModel {
            limit: self.limit,
            days: self.days,
            category: option_text(self.category),
            priority: self.priority,
            status: self.status,
            ls_type: self.ls_type,
        }
    }
}

/// The verdict on a listing request: acceptable, or why not.
pub open spec fn listing_verdict(args: LSArgsModel) -> Result<(), Seq<char>> {
    if args.limit > MAX_LIMIT {
        Err(LIMIT_MESSAGE@)
    } else if args.days > MAX_DAYS {
        Err(DAYS_MESSAGE@)
    } else {
        Ok(())
    }
}

impl LSArgs {
    /// The request that restricts nothing by choice: fifty tasks due within
    /// a day.
    pub fn new() -> (args: LSArgs)
        ensures
            args@ == (LSArgsModel {
                limit: DEFAULT_LIMIT,
                days: DEFAULT_DAYS,
                category: None,
                priority: None,
                status: None,
                ls_type: LSType::Task,
            }),
    {
        LSArgs {
            limit: DEFAULT_LIMIT,
            days: DEFAULT_DAYS,
            category: None,
            priority: None,
            status: None,
            ls_type: LSType::Task,
        }
    }
}

impl CommandArgs for LSArgs {
    open spec fn verdict(&self, now: InstantModel) -> Result<(), Seq<char>> {
        listing_verdict(self@)
    }

    /// A listing is acceptable when it asks for at most a hundred rows and
    /// looks at most 365 days ahead. Neither number is ever cut down to fit.
    /// The instant is not consulted.
    fn validate(&self, now: &Instant) -> (r: Result<(), String>)
        ensures
            r is Ok <==> self@.limit <= MAX_LIMIT && self@.days <= MAX_DAYS,
    {
        if self.limit > MAX_LIMIT {
            return Err(String::from_str(LIMIT_MESSAGE));
        }
        if self.days > MAX_DAYS {
            return Err(String::from_str(DAYS_MESSAGE));
        }
        Ok(())
    }
}

/// One restriction of a task listing.
#[derive(Debug, Clone)]
pub enum Predicate {
    /// Due at this instant or before.
    DueBy(Instant),
    /// Of exactly this category.
    CategoryIs(String),
    /// Of exactly this priority.
    PriorityIs(Priority),
    /// In exactly this status.
    StatusIs(TaskStatus),
}

/// A restriction as a mathematical value.
pub enum PredicateModel {
    DueBy(InstantModel),
    CategoryIs(Seq<char>),
    PriorityIs(Priority),
    StatusIs(TaskStatus),
}

impl View for Predicate {
    type V = PredicateModel;

    open spec fn view(&self) -> PredicateModel {
        match self {
            Predicate::DueBy(t) => PredicateModel::DueBy(t@),
            Predicate::CategoryIs(c) => PredicateModel::CategoryIs(c@),
            Predicate::PriorityIs(p) => PredicateModel::PriorityIs(*p),
            Predicate::StatusIs(s) => PredicateModel::StatusIs(*s),
        }
    }
}

/// Whether a task meets a restriction.
pub open spec fn holds(p: PredicateModel, t: TaskModel) -> bool {
    match p {
        PredicateModel::DueBy(end) => t.due.seconds <= end.seconds,
        PredicateModel::CategoryIs(c) => t.category == Some(c),
        PredicateModel::PriorityIs(priority) => t.priority == priority,
        PredicateModel::StatusIs(status) => t.status == status,
    }
}

/// The condition that a restriction is written as.
pub open spec fn condition(p: PredicateModel) -> Seq<char> {
    match p {
        PredicateModel::DueBy(_) => "due_date <= :due_date"@,
        PredicateModel::CategoryIs(_) => "category = :category"@,
        PredicateModel::PriorityIs(_) => "priority = :priority"@,
        PredicateModel::StatusIs(_) => "status = :status"@,
    }
}

/// The parameter that a restriction binds.
pub open spec fn bound(p: PredicateModel) -> ParamModel {
    match p {
        PredicateModel::DueBy(end) => text_param(":due_date"@, stored_instant(end)),
        PredicateModel::CategoryIs(c) => text_param(":category"@, c),
        PredicateModel::PriorityIs(priority) => integer_param(
            ":priority"@,
            priority_code(priority),
        ),
        PredicateModel::StatusIs(status) => integer_param(":status"@, task_status_code(status)),
    }
}

impl Predicate {
    /// The condition that the restriction is written as.
    pub fn condition(&self) -> (text: &'static str)
        ensures
            text@ == condition(self@),
    {
        match self {
            Predicate::DueBy(_) => "due_date <= :due_date",
            Predicate::CategoryIs(_) => "category = :category",
            Predicate::PriorityIs(_) => "priority = :priority",
            Predicate::StatusIs(_) => "status = :status",
        }
    }

    /// The parameter that the restriction binds.
    pub fn bound(&self) -> (p: Param)
        ensures
            p@ == bound(self@),
    {
        match self {
            Predicate::DueBy(end) => Param {
                name: ":due_date",
                value: SqlValue::Text(storage_text(end)),
            },
            Predicate::CategoryIs(c) => Param { name: ":category", value: SqlValue::Text(c.clone()) },
            Predicate::PriorityIs(priority) => Param {
                name: ":priority",
                value: SqlValue::Integer(priority.to_usize() as i64),
            },
            Predicate::StatusIs(status) => Param {
                name: ":status",
                value: SqlValue::Integer(status.to_usize() as i64),
            },
        }
    }
}

/// A checked task listing: its restrictions and the rows it may return,
/// which are never more than a hundred.
#[derive(Debug)]
pub struct TaskQuery {
    predicates: Vec<Predicate>,
    limit: usize,
}

/// A task listing as a mathematical value.
pub struct TaskQueryModel {
    pub predicates: Seq<PredicateModel>,
    pub limit: usize,
}

/// The views of a sequence of restrictions.
pub open spec fn predicate_views(predicates: Seq<Predicate>) -> Seq<PredicateModel> {
    predicates.map_values(|p: Predicate| p@)
}

impl View for TaskQuery {
    type V = TaskQueryModel;

    closed spec fn view(&self) -> TaskQueryModel {
        TaskQueryModel { predicates: predicate_views(self.predicates@), limit: self.limit }
    }
}

/// Whether a listing admits a task: the task meets every restriction.
pub open spec fn admits(q: TaskQueryModel, t: TaskModel) -> bool {
    forall|i: int| 0 <= i < q.predicates.len() ==> holds(#[trigger] q.predicates[i], t)
}

/// The restriction on status that a request asks for: open tasks where it
/// names none, none where it names `All`, else the status it names.
pub open spec fn status_predicates(status: Option<TaskStatus>) -> Seq<PredicateModel> {
    match status {
        None => seq![PredicateModel::StatusIs(TaskStatus::Open)],
        Some(TaskStatus::All) => Seq::empty(),
        Some(s) => seq![PredicateModel::StatusIs(s)],
    }
}

/// The restrictions that a request asks for, in the order in which they are
/// written: due date, category, priority, status. `end` is the end of the
/// request's window.
pub open spec fn predicates_of(args: LSArgsModel, end: InstantModel) -> Seq<PredicateModel> {
    seq![PredicateModel::DueBy(end)] + (match args.category {
        Some(c) => seq![PredicateModel::CategoryIs(c)],
        None => Seq::empty(),
    }) + (match args.priority {
        Some(p) => seq![PredicateModel::PriorityIs(p)],
        None => Seq::empty(),
    }) + status_predicates(args.status)
}

/// The listing that a request becomes at the instant `now`: refused where
/// the request is not acceptable or its window ends out of range, else the
/// request's restrictions with its own limit.
pub open spec fn query_of(args: LSArgsModel, now: InstantModel) -> Result<TaskQueryModel, ErrorModel> {
    match listing_verdict(args) {
        Err(m) => Err(ErrorModel::Validation(m)),
        Ok(_) => match shifted(now, args.days * DAY_SECONDS) {
            None => Err(ErrorModel::Validation(WINDOW_MESSAGE@)),
            Some(end) => Ok(
                TaskQueryModel { predicates: predicates_of(args, end), limit: args.limit },
            ),
        },
    }
}

/// The conditions of a listing, written out: nothing for none, else `WHERE`
/// and the conditions joined by `AND`.
pub open spec fn where_clause(predicates: Seq<PredicateModel>) -> Seq<char>
    decreases predicates.len(),
{
    if predicates.len() == 0 {
        Seq::empty()
    } else if predicates.len() == 1 {
        " WHERE "@ + condition(predicates[0])
    } else {
        where_clause(predicates.drop_last()) + " AND "@ + condition(predicates.last())
    }
}

/// The parameters of a listing's conditions, in their order.
pub open spec fn bound_params(predicates: Seq<PredicateModel>) -> Seq<ParamModel> {
    predicates.map_values(|p: PredicateModel| bound(p))
}

/// The text of the statement that a listing is written as.
pub open spec fn tasks_sql(q: TaskQueryModel) -> Seq<char> {
    TASKS_SELECT@ + where_clause(q.predicates) + TASKS_ORDER@
}

/// The parameters of the statement that a listing is written as: those of
/// its conditions, then the limit.
pub open spec fn tasks_params(q: TaskQueryModel) -> Seq<ParamModel> {
    bound_params(q.predicates).push(integer_param(":limit"@, q.limit as int))
}

/// Checks a request and builds its listing.
pub fn build_query(args: &LSArgs, now: &Instant) -> (r: Result<TaskQuery, Error>)
    ensures
        r is Ok <==> query_of(args@, now@) is Ok,
        r matches Ok(q) ==> Ok::<TaskQueryModel, ErrorModel>(q@) == query_of(args@, now@),
        r matches Err(e) ==> Err::<TaskQueryModel, ErrorModel>(e@) == query_of(args@, now@),
        r matches Ok(q) ==> q@.limit <= MAX_LIMIT && args.days <= MAX_DAYS,
        r matches Err(e) ==> e is Validation,
{
    match args.validate(now) {
        Err(message) => {
            return Err(Error::Validation(message));
        },
        Ok(()) => {},
    }
    let end = match now.plus_days(args.days as u64) {
        Some(end) => end,
        None => {
            return Err(Error::Validation(String::from_str(WINDOW_MESSAGE)));
        },
    };
    let mut predicates: Vec<Predicate> = Vec::new();
    predicates.push(Predicate::DueBy(end));
    match &args.category {
        Some(c) => {
            predicates.push(Predicate::CategoryIs(c.clone()));
        },
        None => {},
    }
    match args.priority {
        Some(p) => {
            predicates.push(Predicate::PriorityIs(p));
        },
        None => {},
    }
    match args.status {
        None => {
            predicates.push(Predicate::StatusIs(TaskStatus::Open));
        },
        Some(TaskStatus::All) => {},
        Some(s) => {
            predicates.push(Predicate::StatusIs(s));
        },
    }
    assert(predicate_views(predicates@) =~= predicates_of(args@, end@));
    Ok(TaskQuery { predicates, limit: args.limit })
}

impl TaskQuery {
    #[verifier::type_invariant]
    spec fn valid(&self) -> bool {
        self.limit <= MAX_LIMIT
    }

    /// The restrictions of the listing, in the order in which they are written.
    pub fn predicates(&self) -> (predicates: &Vec<Predicate>)
        ensures
            predicate_views(predicates@) == self@.predicates,
    {
        &self.predicates
    }

    /// The most rows the listing returns.
    pub fn limit(&self) -> (limit: usize)
        ensures
            limit == self@.limit,
            limit <= MAX_LIMIT,
    {
        proof {
            use_type_invariant(self);
        }
        self.limit
    }

    /// Writes the listing as one statement: the conditions joined, and each
    /// parameter bound in the order of its condition.
    pub fn statement(&self) -> (st: Statement)
        ensures
            st@.sql == tasks_sql(self@),
            st@.params == tasks_params(self@),
    {
        proof {
            use_type_invariant(self);
        }
        let ghost all = predicate_views(self.predicates@);
        let mut sql = String::from_str(TASKS_SELECT);
        let mut params: Vec<Param> = Vec::new();
        let mut i: usize = 0;
        while i < self.predicates.len()
            invariant
                i <= self.predicates.len(),
                all == predicate_views(self.predicates@),
                sql@ == TASKS_SELECT@ + where_clause(all.subrange(0, i as int)),
                params@.len() == i,
                param_views(params@) == bound_params(all.subrange(0, i as int)),
            decreases self.predicates.len() - i,
        {
            let predicate = &self.predicates[i];
            let ghost before = all.subrange(0, i as int);
            let ghost grown = all.subrange(0, i + 1);
            proof {
                assert(grown.drop_last() =~= before);
            }
            if i == 0 {
                sql = sql.concat(" WHERE ");
            } else {
                sql = sql.concat(" AND ");
            }
            sql = sql.concat(predicate.condition());
            let ghost earlier = params@;
            params.push(predicate.bound());
            proof {
                assert forall|j: int| 0 <= j < grown.len() implies param_views(params@)[j]
                    == bound_params(grown)[j] by {
                    if j < i {
                        assert(param_views(earlier)[j] == bound_params(before)[j]);
                    }
                }
            }
            i += 1;
        }
        proof {
            assert(all.subrange(0, i as int) =~= all);
        }
        sql = sql.concat(TASKS_ORDER);
        params.push(Param { name: ":limit", value: SqlValue::Integer(self.limit as i64) });
        Statement { sql, params }
    }
}

/// The statement that lists the tasks a request asks for, at the instant
/// `now`; refused before anything is built where the request is not
/// acceptable.
pub fn get_tasks(ls_args: &LSArgs, now: &Instant) -> (r: Result<Statement, Error>)
    ensures
        r is Ok <==> query_of(ls_args@, now@) is Ok,
        r matches Ok(st) ==> st@.sql == tasks_sql(query_of(ls_args@, now@)->Ok_0) && st@.params
            == tasks_params(query_of(ls_args@, now@)->Ok_0),
        r matches Err(e) ==> Err::<TaskQueryModel, ErrorModel>(e@) == query_of(ls_args@, now@),
{
    match build_query(ls_args, now) {
        Ok(query) => Ok(query.statement()),
        Err(e) => Err(e),
    }
}

/// The statement that lists the sessions a request asks for, newest first;
/// refused where the request is not acceptable.
pub fn get_pomodoro(ls_args: &LSArgs, now: &Instant) -> (r: Result<Statement, Error>)
    ensures
        r is Ok <==> listing_verdict(ls_args@) is Ok,
        r matches Ok(st) ==> st@.sql == GET_POMODORO_LIST@ && st@.params == seq![
            integer_param(":limit"@, ls_args@.limit as int),
        ],
        r matches Err(e) ==> listing_verdict(ls_args@) == Err::<(), Seq<char>>(
            e->Validation_0@,
        ) && e is Validation,
{
    match ls_args.validate(now) {
        Err(message) => Err(Error::Validation(message)),
        Ok(()) => {
            let params = vec![
                Param { name: ":limit", value: SqlValue::Integer(ls_args.limit as i64) },
            ];
            Ok(Statement { sql: String::from_str(GET_POMODORO_LIST), params })
        },
    }
}

/// Bounds of a listing: a request becomes a listing exactly when it asks for
/// at most 100 rows and at most 365 days and its window ends in range; the
/// listing then has the request's own limit, and its window ends that many
/// days after `now`. Above either bound the request is refused as invalid,
/// never cut down.
pub proof fn law_listing_bounds(args: LSArgsModel, now: InstantModel)
    ensures
        query_of(args, now) is Ok <==> args.limit <= 100 && args.days <= 365 && shifted(
            now,
            args.days * DAY_SECONDS,
        ) is Some,
        query_of(args, now) matches Ok(q) ==> q.limit == args.limit && q.limit <= 100
            && q.predicates[0] == PredicateModel::DueBy(
            InstantModel { seconds: now.seconds + args.days * DAY_SECONDS, offset: now.offset },
        ),
        args.limit > 100 ==> query_of(args, now) == Err::<TaskQueryModel, ErrorModel>(
            ErrorModel::Validation(LIMIT_MESSAGE@),
        ),
        args.limit <= 100 && args.days > 365 ==> query_of(args, now) == Err::<
            TaskQueryModel,
            ErrorModel,
        >(ErrorModel::Validation(DAYS_MESSAGE@)),
{
}

/// What a listing admits, spelled out: a task due within the window, of the
/// category and the priority asked for where one is, and in the status asked
/// for, which is open where none is named and any where `All` is.
pub open spec fn wanted(args: LSArgsModel, end: InstantModel, t: TaskModel) -> bool {
    &&& t.due.seconds <= end.seconds
    &&& args.category matches Some(c) ==> t.category == Some(c)
    &&& args.priority matches Some(p) ==> t.priority == p
    &&& match args.status {
        None => t.status == TaskStatus::Open,
        Some(TaskStatus::All) => true,
        Some(s) => t.status == s,
    }
}

/// Default status: the listing of a request admits exactly the tasks the
/// request wants. So a request that names no status gets open tasks only,
/// one that names `Done` gets done tasks only, and one that names `All` is
/// not restricted by status: a task it admits is admitted in any status.
pub proof fn law_status_filter(args: LSArgsModel, end: InstantModel, t: TaskModel, other: TaskStatus)
    ensures
        admits(TaskQueryModel { predicates: predicates_of(args, end), limit: args.limit }, t)
            <==> wanted(args, end, t),
        args.status is None && wanted(args, end, t) ==> t.status == TaskStatus::Open,
        args.status == Some(TaskStatus::Done) && wanted(args, end, t) ==> t.status
            == TaskStatus::Done,
        args.status == Some(TaskStatus::All) ==> (wanted(args, end, t) <==> wanted(
            args,
            end,
            TaskModel { status: other, ..t },
        )),
{
    let predicates = predicates_of(args, end);
    let q = TaskQueryModel { predicates, limit: args.limit };
    let category = match args.category {
        Some(c) => seq![PredicateModel::CategoryIs(c)],
        None => Seq::empty(),
    };
    let priority = match args.priority {
        Some(p) => seq![PredicateModel::PriorityIs(p)],
        None => Seq::empty(),
    };
    let status = status_predicates(args.status);
    assert(predicates[0] == PredicateModel::DueBy(end));
    if admits(q, t) {
        if args.category is Some {
            assert(holds(q.predicates[1], t));
        }
        if args.priority is Some {
            assert(holds(q.predicates[(1 + category.len()) as int], t));
        }
        if status.len() > 0 {
            assert(holds(q.predicates[(1 + category.len() + priority.len()) as int], t));
        }
    }
    if wanted(args, end, t) {
        assert forall|i: int| 0 <= i < predicates.len() implies holds(#[trigger] predicates[i], t) by {}
    }
}

} // verus!
