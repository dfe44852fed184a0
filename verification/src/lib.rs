//! Derivation of JSON Typedef schemas from the declared shape of data types.
//!
//! Given the layout of a record or tagged union (its fields and variants,
//! with every member type already resolved to a sub-schema by the caller's
//! registry) and a tagging strategy, the crate classifies the shape, builds
//! the schema tree for it, and computes the canonical identity under which
//! a registry may deduplicate the result. Unsupported shapes are rejected
//! with a structured diagnostic.

pub mod classify;
pub mod derive;
pub mod error;
pub mod laws;
pub mod names;
pub mod schema;
pub mod shape;
pub mod strategy;
pub mod synth;

pub use derive::Derivation;
pub use error::{DeriveError, UnsupportedShape};
pub use names::{Names, TypeIdent};
pub use schema::Schema;
pub use shape::{FieldsShape, TypeDef, VariantDef};
pub use strategy::TagStrategy;
