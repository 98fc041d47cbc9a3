//! Typed expression trees over a relational-algebra wire format.
//!
//! The crate builds function-call, literal and field-reference expressions
//! against a schema that may know nothing, only names, only types, or both,
//! checks calls against catalogs of overloaded signatures, and assembles the
//! result into a message whose extension metadata is referenced by small
//! integer anchors.
//!
//! - `registry`: anchors for user-defined types, functions and variations.
//! - `types`: the type model, kind matching, counting and rendering.
//! - `path`: the grammar of field paths such as `a.b[3][key]`.
//! - `schema`: the four kinds of schema, their traversals and resolution.
//! - `expr`: literals, calls and field references, and their types.
//! - `functions`: overload matching, relaxation and call construction.
//! - `reference`: paths walked through a schema into nested references.
//! - `builder`: the expression builder and the message it assembles.
//! - `schema_builder`: builders for schemas and user-defined types.

pub mod error;
pub mod registry;
pub mod types;
pub mod path;
pub mod expr;
pub mod schema;
pub mod functions;
pub mod reference;
pub mod builder;
pub mod schema_builder;
