//! The records that the service hands out, as plain values.

use vstd::prelude::*;

verus! {

/// The answer of the token endpoint to a successful code exchange.
#[derive(Clone, Debug, PartialEq, Eq)]
pub struct TokenResponse {
    pub access_token: String,
    pub token_type: String,
    pub expires_in: Option<u64>,
    pub refresh_token: Option<String>,
    pub scope: String,
}

/// A project, as the project list names it.
#[derive(Clone, Debug, PartialEq, Eq)]
pub struct Project {
    pub id: String,
    pub name: String,
    pub color: Option<String>,
    pub closed: Option<bool>,
    pub group_id: Option<String>,
    pub view_mode: Option<String>,
    pub permission: Option<String>,
    pub kind: Option<String>,
}

/// One entry of a task's checklist. `status` is 0 while open and 1 once done.
#[derive(Clone, Debug, PartialEq, Eq)]
pub struct ChecklistItem {
    pub id: Option<String>,
    pub title: String,
    pub status: i32,
    pub completed_time: Option<String>,
    pub is_all_day: Option<bool>,
    pub sort_order: Option<i64>,
    pub start_date: Option<String>,
    pub time_zone: Option<String>,
}

/// A task. `status` is 0 while open and 2 once completed; `priority` is 0, 1, 3
/// or 5 from none to high. The two dates are kept as the service wrote them.
#[derive(Clone, Debug, PartialEq, Eq)]
pub struct Task {
    pub id: String,
    pub project_id: String,
    pub title: String,
    pub is_all_day: Option<bool>,
    pub completed_time: Option<String>,
    pub content: Option<String>,
    pub desc: Option<String>,
    pub due_date: Option<String>,
    pub items: Option<Vec<ChecklistItem>>,
    pub priority: Option<i32>,
    pub reminders: Option<Vec<String>>,
    pub repeat_flag: Option<String>,
    pub sort_order: Option<i64>,
    pub start_date: Option<String>,
    pub status: i32,
    pub time_zone: Option<String>,
}

/// What the data endpoint of one project returns: the project and its tasks.
#[derive(Clone, Debug, PartialEq, Eq)]
pub struct ProjectData {
    pub project: Project,
    pub tasks: Vec<Task>,
}

/// The tasks of the inbox, which belongs to no project.
#[derive(Clone, Debug, PartialEq, Eq)]
pub struct InboxData {
    pub tasks: Vec<Task>,
}

/// The status of a task that is still open.
pub const STATUS_NORMAL: i32 = 0;

/// The status of a task that has been completed.
pub const STATUS_COMPLETED: i32 = 2;

impl Task {
    /// Whether the task is still open.
    pub open spec fn is_open(&self) -> bool {
        self.status == STATUS_NORMAL
    }

    /// Whether the task is still open.
    pub fn open_now(&self) -> (open: bool)
        ensures
            open == self.is_open(),
    {
        self.status == STATUS_NORMAL
    }
}

} // verus!
