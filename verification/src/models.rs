//! The enumerations that tasks and sessions are made of, each with its one
//! table between variants, stored integers and display names.

use vstd::prelude::*;
use vstd::string::*;
use crate::instant::{Instant, InstantModel};
use crate::text::{lowercase, lowercase_text, text_eq};

verus! {

/// How urgent a task is. The variants are ordered from `Low` to `Urgent`.
#[derive(Debug, Clone, Copy, PartialEq, Eq, PartialOrd, Ord, Structural)]
pub enum Priority {
    Low,
    Medium,
    High,
    Urgent,
}

/// The stored integer of a priority.
pub open spec fn priority_code(p: Priority) -> int {
    match p {
        Priority::Low => 1,
        Priority::Medium => 2,
        Priority::High => 3,
        Priority::Urgent => 4,
    }
}

/// The priority that a stored integer stands for; an unknown one reads as `Medium`.
pub open spec fn priority_of_code(n: int) -> Priority {
    if n == 1 {
        Priority::Low
    } else if n == 3 {
        Priority::High
    } else if n == 4 {
        Priority::Urgent
    } else {
        Priority::Medium
    }
}

/// The display name of a priority.
pub open spec fn priority_name(p: Priority) -> Seq<char> {
    match p {
        Priority::Low => "Low"@,
        Priority::Medium => "Medium"@,
        Priority::High => "High"@,
        Priority::Urgent => "Urgent"@,
    }
}

/// The priority that a lowercase name stands for; an unknown one reads as `Medium`.
pub open spec fn priority_named(name: Seq<char>) -> Priority {
    if name == "low"@ {
        Priority::Low
    } else if name == "high"@ {
        Priority::High
    } else if name == "urgent"@ {
        Priority::Urgent
    } else {
        Priority::Medium
    }
}

impl Priority {
    /// Reads a priority from its stored integer.
    pub fn from_usize(n: usize) -> (p: Priority)
        ensures
            p == priority_of_code(n as int),
    {
        match n {
            1 => Priority::Low,
            2 => Priority::Medium,
            3 => Priority::High,
            4 => Priority::Urgent,
            _ => Priority::Medium,
        }
    }

    /// The stored integer of the priority, from which it is read back.
    pub fn to_usize(&self) -> (n: usize)
        ensures
            n == priority_code(*self),
            priority_of_code(n as int) == *self,
    {
        match self {
            Priority::Low => 1,
            Priority::Medium => 2,
            Priority::High => 3,
            Priority::Urgent => 4,
        }
    }

    /// Reads a priority from a name that is already in lowercase.
    pub fn from_lowercase(name: &str) -> (p: Priority)
        ensures
            p == priority_named(name@),
    {
        proof {
            reveal_strlit("low");
            reveal_strlit("medium");
            reveal_strlit("high");
            reveal_strlit("urgent");
            assert("medium"@[0] == 'm' && "urgent"@[0] == 'u');
        }
        if text_eq(name, "low") {
            Priority::Low
        } else if text_eq(name, "medium") {
            Priority::Medium
        } else if text_eq(name, "high") {
            Priority::High
        } else if text_eq(name, "urgent") {
            Priority::Urgent
        } else {
            Priority::Medium
        }
    }

    /// The display name.
    pub fn name(&self) -> (s: &'static str)
        ensures
            s@ == priority_name(*self),
    {
        match self {
            Priority::Low => "Low",
            Priority::Medium => "Medium",
            Priority::High => "High",
            Priority::Urgent => "Urgent",
        }
    }
}

impl From<String> for Priority {
    fn from(s: String) -> (p: Priority) {
        let lowered = lowercase(s.as_str());
        Priority::from_lowercase(lowered.as_str())
    }
}

impl vstd::std_specs::convert::FromSpecImpl<String> for Priority {
    open spec fn obeys_from_spec() -> bool {
        true
    }

    open spec fn from_spec(s: String) -> Priority {
        priority_named(lowercase_text(s@))
    }
}

impl From<Priority> for String {
    fn from(p: Priority) -> (s: String)
        ensures
            s@ == priority_name(p),
    {
        String::from_str(p.name())
    }
}

impl vstd::std_specs::convert::FromSpecImpl<Priority> for String {
    open spec fn obeys_from_spec() -> bool {
        false
    }

    open spec fn from_spec(p: Priority) -> String {
        arbitrary()
    }
}

/// Whether a task is still to do. `All` is a sentinel for listings and is never stored.
#[derive(Debug, Clone, Copy, PartialEq, Eq, PartialOrd, Ord, Structural)]
pub enum TaskStatus {
    All,
    Done,
    Open,
}

/// The stored integer of a task status.
pub open spec fn task_status_code(s: TaskStatus) -> int {
    match s {
        TaskStatus::Open => 0,
        TaskStatus::Done => 1,
        TaskStatus::All => 2,
    }
}

/// The task status that a stored integer stands for; an unknown one reads as `All`.
pub open spec fn task_status_of_code(n: int) -> TaskStatus {
    if n == 0 {
        TaskStatus::Open
    } else if n == 1 {
        TaskStatus::Done
    } else {
        TaskStatus::All
    }
}

/// The display name of a task status.
pub open spec fn task_status_name(s: TaskStatus) -> Seq<char> {
    match s {
        TaskStatus::Done => "Done"@,
        TaskStatus::Open => "Open"@,
        TaskStatus::All => "All"@,
    }
}

/// The task status that a lowercase name stands for; an unknown one reads as `All`.
pub open spec fn task_status_named(name: Seq<char>) -> TaskStatus {
    if name == "done"@ {
        TaskStatus::Done
    } else if name == "open"@ {
        TaskStatus::Open
    } else {
        TaskStatus::All
    }
}

impl TaskStatus {
    /// Whether the status is `Done`.
    pub fn is_done(&self) -> (b: bool)
        ensures
            b == (*self == TaskStatus::Done),
    {
        matches!(*self, TaskStatus::Done)
    }

    /// Whether the status is `Open`.
    pub fn is_pending(&self) -> (b: bool)
        ensures
            b == (*self == TaskStatus::Open),
    {
        matches!(*self, TaskStatus::Open)
    }

    /// `Done` for true, `Open` for false.
    pub fn from_bool(b: bool) -> (s: TaskStatus)
        ensures
            s == (if b { TaskStatus::Done } else { TaskStatus::Open }),
    {
        if b {
            TaskStatus::Done
        } else {
            TaskStatus::Open
        }
    }

    /// Reads a task status from its stored integer.
    pub fn from_usize(n: usize) -> (s: TaskStatus)
        ensures
            s == task_status_of_code(n as int),
    {
        match n {
            0 => TaskStatus::Open,
            1 => TaskStatus::Done,
            _ => TaskStatus::All,
        }
    }

    /// The stored integer of the status, from which it is read back.
    pub fn to_usize(self) -> (n: usize)
        ensures
            n == task_status_code(self),
            task_status_of_code(n as int) == self,
    {
        match self {
            TaskStatus::Done => 1,
            TaskStatus::Open => 0,
            TaskStatus::All => 2,
        }
    }

    /// Reads a task status from a name that is already in lowercase.
    pub fn from_lowercase(name: &str) -> (s: TaskStatus)
        ensures
            s == task_status_named(name@),
    {
        proof {
            reveal_strlit("done");
            reveal_strlit("open");
        }
        if text_eq(name, "done") {
            TaskStatus::Done
        } else if text_eq(name, "open") {
            TaskStatus::Open
        } else {
            TaskStatus::All
        }
    }

    /// The display name.
    pub fn name(&self) -> (s: &'static str)
        ensures
            s@ == task_status_name(*self),
    {
        match self {
            TaskStatus::Done => "Done",
            TaskStatus::Open => "Open",
            TaskStatus::All => "All",
        }
    }
}

impl Default for TaskStatus {
    fn default() -> (s: TaskStatus)
        ensures
            s == TaskStatus::Open,
    {
        TaskStatus::Open
    }
}

impl From<String> for TaskStatus {
    fn from(s: String) -> (status: TaskStatus) {
        let lowered = lowercase(s.as_str());
        TaskStatus::from_lowercase(lowered.as_str())
    }
}

impl vstd::std_specs::convert::FromSpecImpl<String> for TaskStatus {
    open spec fn obeys_from_spec() -> bool {
        true
    }

    open spec fn from_spec(s: String) -> TaskStatus {
        task_status_named(lowercase_text(s@))
    }
}

impl From<TaskStatus> for String {
    fn from(status: TaskStatus) -> (s: String)
        ensures
            s@ == task_status_name(status),
    {
        String::from_str(status.name())
    }
}

impl vstd::std_specs::convert::FromSpecImpl<TaskStatus> for String {
    open spec fn obeys_from_spec() -> bool {
        false
    }

    open spec fn from_spec(status: TaskStatus) -> String {
        arbitrary()
    }
}

/// What a session is for.
#[derive(Debug, Clone, Copy, PartialEq, Eq, Structural)]
pub enum PomoType {
    Rest,
    Work,
}

/// The stored integer of a session kind.
pub open spec fn pomo_type_code(t: PomoType) -> int {
    match t {
        PomoType::Rest => 0,
        PomoType::Work => 1,
    }
}

/// The session kind that a stored integer stands for; an unknown one reads as `Work`.
pub open spec fn pomo_type_of_code(n: int) -> PomoType {
    if n == 0 {
        PomoType::Rest
    } else {
        PomoType::Work
    }
}

/// The display name of a session kind.
pub open spec fn pomo_type_name(t: PomoType) -> Seq<char> {
    match t {
        PomoType::Rest => "Rest"@,
        PomoType::Work => "Work"@,
    }
}

/// The session kind that a lowercase name stands for; an unknown one reads as `Work`.
pub open spec fn pomo_type_named(name: Seq<char>) -> PomoType {
    if name == "rest"@ {
        PomoType::Rest
    } else {
        PomoType::Work
    }
}

impl PomoType {
    /// Reads a session kind from its stored integer.
    pub fn from_usize(n: usize) -> (t: PomoType)
        ensures
            t == pomo_type_of_code(n as int),
    {
        match n {
            0 => PomoType::Rest,
            _ => PomoType::Work,
        }
    }

    /// The stored integer of the kind, from which it is read back.
    pub fn to_usize(&self) -> (n: usize)
        ensures
            n == pomo_type_code(*self),
            pomo_type_of_code(n as int) == *self,
    {
        match self {
            PomoType::Rest => 0,
            PomoType::Work => 1,
        }
    }

    /// Whether the session is one of rest.
    pub fn is_rest(&self) -> (b: bool)
        ensures
            b == (*self == PomoType::Rest),
    {
        matches!(*self, PomoType::Rest)
    }

    /// Whether the session is one of work.
    pub fn is_work(&self) -> (b: bool)
        ensures
            b == (*self == PomoType::Work),
    {
        matches!(*self, PomoType::Work)
    }

    /// Reads a session kind from a name that is already in lowercase.
    pub fn from_lowercase(name: &str) -> (t: PomoType)
        ensures
            t == pomo_type_named(name@),
    {
        if text_eq(name, "rest") {
            PomoType::Rest
        } else {
            PomoType::Work
        }
    }

    /// The display name.
    pub fn name(&self) -> (s: &'static str)
        ensures
            s@ == pomo_type_name(*self),
    {
        match self {
            PomoType::Rest => "Rest",
            PomoType::Work => "Work",
        }
    }
}

impl Default for PomoType {
    fn default() -> (t: PomoType)
        ensures
            t == PomoType::Work,
    {
        PomoType::Work
    }
}

impl From<String> for PomoType {
    fn from(s: String) -> (t: PomoType) {
        let lowered = lowercase(s.as_str());
        PomoType::from_lowercase(lowered.as_str())
    }
}

impl vstd::std_specs::convert::FromSpecImpl<String> for PomoType {
    open spec fn obeys_from_spec() -> bool {
        true
    }

    open spec fn from_spec(s: String) -> PomoType {
        pomo_type_named(lowercase_text(s@))
    }
}

impl From<PomoType> for String {
    fn from(t: PomoType) -> (s: String)
        ensures
            s@ == pomo_type_name(t),
    {
        String::from_str(t.name())
    }
}

impl vstd::std_specs::convert::FromSpecImpl<PomoType> for String {
    open spec fn obeys_from_spec() -> bool {
        false
    }

    open spec fn from_spec(t: PomoType) -> String {
        arbitrary()
    }
}

/// Where a session stands: it starts `Running` and ends `Paused` or `Finished`.
#[derive(Debug, Clone, Copy, PartialEq, Eq, Structural)]
pub enum PomoStatus {
    Paused,
    Finished,
    Running,
}

/// The stored integer of a session status.
pub open spec fn pomo_status_code(s: PomoStatus) -> int {
    match s {
        PomoStatus::Running => 0,
        PomoStatus::Paused => 1,
        PomoStatus::Finished => 2,
    }
}

/// The session status that a stored integer stands for; an unknown one reads as `Running`.
pub open spec fn pomo_status_of_code(n: int) -> PomoStatus {
    if n == 1 {
        PomoStatus::Paused
    } else if n == 2 {
        PomoStatus::Finished
    } else {
        PomoStatus::Running
    }
}

/// The display name of a session status.
pub open spec fn pomo_status_name(s: PomoStatus) -> Seq<char> {
    match s {
        PomoStatus::Paused => "Paused"@,
        PomoStatus::Finished => "Finished"@,
        PomoStatus::Running => "Running"@,
    }
}

/// The session status that a lowercase name stands for; an unknown one reads as `Running`.
pub open spec fn pomo_status_named(name: Seq<char>) -> PomoStatus {
    if name == "paused"@ {
        PomoStatus::Paused
    } else if name == "finished"@ {
        PomoStatus::Finished
    } else {
        PomoStatus::Running
    }
}

impl PomoStatus {
    /// Reads a session status from its stored integer.
    pub fn from_usize(n: usize) -> (s: PomoStatus)
        ensures
            s == pomo_status_of_code(n as int),
    {
        match n {
            0 => PomoStatus::Running,
            1 => PomoStatus::Paused,
            2 => PomoStatus::Finished,
            _ => PomoStatus::Running,
        }
    }

    /// The stored integer of the status, from which it is read back.
    pub fn to_usize(&self) -> (n: usize)
        ensures
            n == pomo_status_code(*self),
            pomo_status_of_code(n as int) == *self,
    {
        match self {
            PomoStatus::Paused => 1,
            PomoStatus::Finished => 2,
            PomoStatus::Running => 0,
        }
    }

    /// Reads a session status from a name that is already in lowercase.
    pub fn from_lowercase(name: &str) -> (s: PomoStatus)
        ensures
            s == pomo_status_named(name@),
    {
        proof {
            reveal_strlit("paused");
            reveal_strlit("finished");
        }
        if text_eq(name, "paused") {
            PomoStatus::Paused
        } else if text_eq(name, "finished") {
            PomoStatus::Finished
        } else {
            PomoStatus::Running
        }
    }

    /// The display name.
    pub fn name(&self) -> (s: &'static str)
        ensures
            s@ == pomo_status_name(*self),
    {
        match self {
            PomoStatus::Paused => "Paused",
            PomoStatus::Finished => "Finished",
            PomoStatus::Running => "Running",
        }
    }
}

impl Default for PomoStatus {
    fn default() -> (s: PomoStatus)
        ensures
            s == PomoStatus::Running,
    {
        PomoStatus::Running
    }
}

impl From<String> for PomoStatus {
    fn from(s: String) -> (status: PomoStatus) {
        let lowered = lowercase(s.as_str());
        PomoStatus::from_lowercase(lowered.as_str())
    }
}

impl vstd::std_specs::convert::FromSpecImpl<String> for PomoStatus {
    open spec fn obeys_from_spec() -> bool {
        true
    }

    open spec fn from_spec(s: String) -> PomoStatus {
        pomo_status_named(lowercase_text(s@))
    }
}

impl From<PomoStatus> for String {
    fn from(status: PomoStatus) -> (s: String)
        ensures
            s@ == pomo_status_name(status),
    {
        String::from_str(status.name())
    }
}

impl vstd::std_specs::convert::FromSpecImpl<PomoStatus> for String {
    open spec fn obeys_from_spec() -> bool {
        false
    }

    open spec fn from_spec(status: PomoStatus) -> String {
        arbitrary()
    }
}

/// Which of the two listings is asked for.
#[derive(Debug, Clone, Copy, PartialEq, Eq, Structural)]
pub enum LSType {
    Task,
    Pomo,
}

/// The listing that a lowercase name stands for; an unknown one reads as `Task`.
pub open spec fn ls_type_named(name: Seq<char>) -> LSType {
    if name == "pomo"@ {
        LSType::Pomo
    } else {
        LSType::Task
    }
}

/// The display name of a listing.
pub open spec fn ls_type_name(t: LSType) -> Seq<char> {
    match t {
        LSType::Task => "Task"@,
        LSType::Pomo => "Pomo"@,
    }
}

impl LSType {
    /// Reads a listing from its number: zero for tasks, anything else for sessions.
    pub fn from_usize(n: usize) -> (t: LSType)
        ensures
            t == (if n == 0 { LSType::Task } else { LSType::Pomo }),
    {
        match n {
            0 => LSType::Task,
            _ => LSType::Pomo,
        }
    }

    /// The number of the listing.
    pub fn to_usize(&self) -> (n: usize)
        ensures
            n == (if *self == LSType::Task { 0usize } else { 1usize }),
    {
        match self {
            LSType::Task => 0,
            LSType::Pomo => 1,
        }
    }

    /// Reads a listing from a name that is already in lowercase.
    pub fn from_lowercase(name: &str) -> (t: LSType)
        ensures
            t == ls_type_named(name@),
    {
        if text_eq(name, "pomo") {
            LSType::Pomo
        } else {
            LSType::Task
        }
    }

    /// The display name.
    pub fn name(&self) -> (s: &'static str)
        ensures
            s@ == ls_type_name(*self),
    {
        match self {
            LSType::Task => "Task",
            LSType::Pomo => "Pomo",
        }
    }
}

impl Default for LSType {
    fn default() -> (t: LSType)
        ensures
            t == LSType::Pomo,
    {
        LSType::Pomo
    }
}

impl From<String> for LSType {
    fn from(s: String) -> (t: LSType) {
        let lowered = lowercase(s.as_str());
        LSType::from_lowercase(lowered.as_str())
    }
}

impl vstd::std_specs::convert::FromSpecImpl<String> for LSType {
    open spec fn obeys_from_spec() -> bool {
        true
    }

    open spec fn from_spec(s: String) -> LSType {
        ls_type_named(lowercase_text(s@))
    }
}

impl From<LSType> for String {
    fn from(t: LSType) -> (s: String)
        ensures
            s@ == ls_type_name(t),
    {
        String::from_str(t.name())
    }
}

impl vstd::std_specs::convert::FromSpecImpl<LSType> for String {
    open spec fn obeys_from_spec() -> bool {
        false
    }

    open spec fn from_spec(t: LSType) -> String {
        arbitrary()
    }
}

/// The request to mark one task as done.
#[derive(Debug, Clone, Copy, PartialEq, Eq, Structural)]
pub struct DoneArgs {
    pub id: usize,
}

/// What the terminal watcher reports to the session's control loop.
#[derive(Debug, Clone, Copy, PartialEq, Eq, Structural)]
pub enum PomodoroEvent {
    Resize(u16, u16),
    Quit,
}

/// What the countdown display shows: never stored, owned by the control loop.
#[derive(Debug, Clone)]
pub struct AppState {
    pub title: String,
    pub term_width: u16,
    pub term_height: u16,
    /// The time that is left, in whole seconds.
    pub current_time: u64,
    pub quited: bool,
}

impl Default for AppState {
    /// An empty display: no title, no size, no time left.
    fn default() -> (state: AppState)
        ensures
            state.title@ == Seq::<char>::empty(),
            state.term_width == 0,
            state.term_height == 0,
            state.current_time == 0,
            !state.quited,
    {
        AppState {
            title: String::new(),
            term_width: 0,
            term_height: 0,
            current_time: 0,
            quited: false,
        }
    }
}

/// A request that can be judged before anything is stored or drawn. The
/// judgement is given the current instant; it reads no clock itself.
pub trait CommandArgs {
    /// The verdict on the request at the instant `now`: acceptable, or the
    /// sentence that says why not.
    spec fn verdict(&self, now: InstantModel) -> Result<(), Seq<char>>;

    fn validate(&self, now: &Instant) -> (r: Result<(), String>)
        ensures
            r is Ok <==> self.verdict(now@) is Ok,
            r matches Err(m) ==> Err::<(), Seq<char>>(m@) == self.verdict(now@),
    ;
}

/// A value that can be shown as one row of a table.
pub trait TableRow {
    /// The column titles.
    spec fn header_cells(&self) -> Seq<Seq<char>>;

    /// The cells of the row.
    spec fn row_cells(&self) -> Seq<Seq<char>>;

    fn headers(&self) -> (h: Vec<&'static str>)
        ensures
            names(h@) == self.header_cells(),
    ;

    fn row(&self) -> (r: Vec<String>)
        ensures
            texts(r@) == self.row_cells(),
    ;
}

/// The views of a sequence of texts.
pub open spec fn texts(v: Seq<String>) -> Seq<Seq<char>> {
    v.map_values(|s: String| s@)
}

/// The views of a sequence of string slices.
pub open spec fn names(v: Seq<&'static str>) -> Seq<Seq<char>> {
    v.map_values(|s: &'static str| s@)
}

} // verus!
