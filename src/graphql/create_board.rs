//! Shapes of the `createBoard` mutation.

use vstd::prelude::*;

use crate::graphql::DateTime;

verus! {

pub const OPERATION_NAME: &'static str = "CreateBoard";

pub const QUERY: &'static str = "mutation CreateBoard {\n    createBoard {\n        ...Board\n    }\n}\n\nfragment Board on Board {\n    __typename\n    archivedAt\n    emoji\n    id\n    lastViewedAt\n    name\n    projectCompletedProjectColumnId\n    taskCompletedProjectColumnId\n}";

/// The operation takes no variables.
#[derive(Debug)]
pub struct Variables;

/// The board fields that the operation selects.
#[derive(Debug)]
pub struct Board {
    pub archived_at: Option<DateTime>,
    pub emoji: Option<String>,
    pub id: String,
    pub last_viewed_at: Option<DateTime>,
    pub name: String,
    pub project_completed_project_column_id: Option<String>,
    pub task_completed_project_column_id: Option<String>,
}

/// The response's `data` payload.
#[derive(Debug)]
pub struct ResponseData {
    pub create_board: Board,
}

} // verus!
