//! Property dependencies of a schema validation engine.
//!
//! A `dependencies` fragment of a schema says what a document owes once it
//! holds a given property: under each property name stands either a list
//! of further properties that then have to be present, or a schema that
//! the whole document then has to satisfy.
//!
//! Such a fragment is compiled once, by
//! [`DependenciesValidator::compile`](keywords::dependencies::DependenciesValidator::compile),
//! into a table of constraints with one entry per property name. The table
//! is never changed afterwards and can be evaluated against any number of
//! documents, in two modes: `is_valid` gives the plain verdict and stops at
//! the first failure, `validate` lists every failure in the order of the
//! table. An entry counts only for a document that is an object and holds
//! the entry's property; any other document passes.
//!
//! What each function computes is stated over the mathematical values of
//! documents ([`value::SpecValue`]) and of constraints
//! ([`keywords::SpecValidator`]).

pub mod compilation;
pub mod error;
pub mod keywords;
pub mod primitive_type;
pub mod value;
