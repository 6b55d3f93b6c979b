//! Typed bindings of the operations that the client issues: for each, a
//! marker type whose `build_query` makes the request body, and a module with
//! the operation's document, variables and response shapes.

use vstd::prelude::*;

pub mod create_board;
pub mod uncomplete_task;
pub mod unspring_project;

verus! {

/// graphql_client's request body: variables, document and operation name.
#[verifier::external_type_specification]
#[verifier::reject_recursive_types(V)]
pub struct ExQueryBody<V>(graphql_client::QueryBody<V>);

/// A date-time scalar, carried as its wire text.
pub type DateTime = String;

/// A date scalar, carried as its wire text.
pub type Date = String;

/// The `createBoard` mutation.
pub struct CreateBoard;

impl CreateBoard {
    /// The request body for this operation with the given variables.
    pub fn build_query(variables: create_board::Variables) -> (r: graphql_client::QueryBody<
        create_board::Variables,
    >)
        ensures
            r.variables == variables,
            r.query@ == create_board::QUERY@,
            r.operation_name@ == create_board::OPERATION_NAME@,
    {
        graphql_client::QueryBody {
            variables,
            query: create_board::QUERY,
            operation_name: create_board::OPERATION_NAME,
        }
    }
}

/// The `uncompleteTask` mutation.
pub struct UncompleteTask;

impl UncompleteTask {
    /// The request body for this operation with the given variables.
    pub fn build_query(variables: uncomplete_task::Variables) -> (r: graphql_client::QueryBody<
        uncomplete_task::Variables,
    >)
        ensures
            r.variables == variables,
            r.query@ == uncomplete_task::QUERY@,
            r.operation_name@ == uncomplete_task::OPERATION_NAME@,
    {
        graphql_client::QueryBody {
            variables,
            query: uncomplete_task::QUERY,
            operation_name: uncomplete_task::OPERATION_NAME,
        }
    }
}

/// The `unspringProject` mutation.
pub struct UnspringProject;

impl UnspringProject {
    /// The request body for this operation with the given variables.
    pub fn build_query(variables: unspring_project::Variables) -> (r: graphql_client::QueryBody<
        unspring_project::Variables,
    >)
        ensures
            r.variables == variables,
            r.query@ == unspring_project::QUERY@,
            r.operation_name@ == unspring_project::OPERATION_NAME@,
    {
        graphql_client::QueryBody {
            variables,
            query: unspring_project::QUERY,
            operation_name: unspring_project::OPERATION_NAME,
        }
    }
}

} // verus!
