//! A verified engine for schemas of environment variables.
//!
//! A schema groups named variables into ordered categories. Each variable
//! declares a type tag, an optional set of allowed values, an optional
//! default, and lifecycle metadata. The engine checks a schema for internal
//! consistency (name well-formedness, type/value agreement, uniqueness of
//! allowed values, default containment) and renders a validated schema into
//! Markdown documentation and into a shell script of default assignments.

pub mod laws;
pub mod render;
pub mod schema;
pub mod text;
pub mod validate;
pub mod value;
