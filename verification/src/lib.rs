//! A type-driven schema generation engine.
//!
//! Given a description of a data type, the library produces a structured
//! schema document (a tree of instance types, sub-schemas, and references)
//! describing the shape that values of that type must take. The core is the
//! handling of optional values: the policy that decides how "this value may
//! be absent" is encoded into the schema document model, configurable
//! through [`settings::SchemaSettings`].

pub mod assoc;
pub mod generator;
pub mod json_schema;
pub mod json_schema_impls;
pub mod laws;
pub mod schema;
pub mod settings;
