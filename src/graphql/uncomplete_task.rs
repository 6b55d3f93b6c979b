//! Shapes of the `uncompleteTask` mutation.

use vstd::prelude::*;

use crate::graphql::{Date, DateTime};

verus! {

pub const OPERATION_NAME: &'static str = "UncompleteTask";

pub const QUERY: &'static str = "mutation UncompleteTask($task_id: ID!) {\n    uncompleteTask(taskId: $task_id) {\n        ...Task\n    }\n}\n\nfragment Task on Task {\n    __typename\n    completed\n    completedAt\n    date\n    description\n    dueDate\n    groupIds\n    id\n    isRecurring\n    link\n    name\n    priorityOrder\n    spring\n}";

/// The operation's variables.
#[derive(Debug)]
pub struct Variables {
    pub task_id: String,
}

/// The task fields that the operation selects.
#[derive(Debug)]
pub struct Task {
    pub completed: bool,
    pub completed_at: Option<DateTime>,
    pub date: Option<Date>,
    pub description: Option<String>,
    pub due_date: Option<Date>,
    pub group_ids: Vec<String>,
    pub id: String,
    pub is_recurring: bool,
    pub link: Option<String>,
    pub name: String,
    pub priority_order: Option<i64>,
    pub spring: bool,
}

/// The response's `data` payload.
#[derive(Debug)]
pub struct ResponseData {
    pub uncomplete_task: Task,
}

} // verus!
