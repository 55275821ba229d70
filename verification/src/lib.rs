//! Validation of structured documents against schemas in the style of
//! OpenAPI 2: a schema node is compiled into a validator, and a validator
//! reports the first violation that it finds in a document node. Route
//! templates are cut into segments that carry the validators of their path
//! parameters.
//!
//! Every function states what it returns over a mathematical model of its
//! arguments, and each statement is proved.
pub mod common;
pub mod definition;
pub mod document;
pub mod path;
pub mod swagger;
pub mod table;
pub mod text;
pub mod validator;
