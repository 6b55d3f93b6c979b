//! Shapes of the `unspringProject` mutation.

use vstd::prelude::*;

use crate::graphql::{Date, DateTime};

verus! {

pub const OPERATION_NAME: &'static str = "UnspringProject";

pub const QUERY: &'static str = "mutation UnspringProject($project_id: ID!) {\n    unspringProject(projectId: $project_id) {\n        ...Project\n    }\n}\n\nfragment Project on Project {\n    __typename\n    collapseCompleted\n    completed\n    completedAt\n    date\n    endDate\n    id\n    link\n    name\n    noteBody\n    order\n    springEnabled\n    supportsNotes\n}";

/// The operation's variables.
#[derive(Debug)]
pub struct Variables {
    pub project_id: String,
}

/// The project fields that the operation selects.
#[derive(Debug)]
pub struct Project {
    pub collapse_completed: bool,
    pub completed: bool,
    pub completed_at: Option<DateTime>,
    pub date: Option<Date>,
    pub end_date: Option<Date>,
    pub id: String,
    pub link: Option<String>,
    pub name: String,
    pub note_body: Option<String>,
    pub order: Option<i64>,
    pub spring_enabled: bool,
    pub supports_notes: bool,
}

/// The response's `data` payload.
#[derive(Debug)]
pub struct ResponseData {
    pub unspring_project: Project,
}

} // verus!
