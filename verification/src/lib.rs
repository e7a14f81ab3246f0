//! A schema model for code generation: from a type declaration and its
//! annotations to the table it is stored in, its primary key and its fields.
//!
//! [`model::Model::from_item`] builds the model of a [`model::Declaration`],
//! and [`naming`] holds the rules by which a table is named after a type.

pub mod annotation;
pub mod diagnostic;
pub mod field;
pub mod laws;
pub mod model;
pub mod naming;
pub mod search;
