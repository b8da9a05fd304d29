//! Configuration resolution and constructor synthesis for a `New`-style
//! derive: marker blocks attached to a type declaration are parsed into
//! validated option models, a construction plan is derived from the type's
//! shape and field options, and one constructor description per product type
//! or sum-type variant is emitted.
//!
//! The host compiler's declaration parser and the token-level rendering of
//! generated code sit outside this crate; it works on plain values.

pub mod derive;
pub mod emit;
pub mod errors;
pub mod field_options;
pub mod lints;
pub mod main_options;
pub mod messages;
pub mod model;
pub mod plan;
pub mod strutil;
