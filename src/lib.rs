//! Typed GraphQL operation generation from an introspection schema.
//!
//! The [`schema`] module models the introspection document, [`roots`] locates
//! the Query and Mutation root types, [`names`] derives operation and module
//! names, and [`generator`] turns every root field into an operation document
//! plus the aggregator files that tie the operations together. [`lemmas`]
//! states and proves the generator's laws, and [`graphql`] holds the typed
//! bindings of the operations that the client issues.

pub mod schema;
pub mod roots;
pub mod names;
pub mod generator;
pub mod lemmas;
pub mod graphql;
