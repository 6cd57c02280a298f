//! Scalar-function resolution core of a columnar query engine.
//!
//! The library maps function names and aliases to a closed catalog of
//! function identities, describes the argument shapes each identity accepts,
//! infers output types from coerced input types, classifies per-argument
//! monotonicity, propagates sort order through a call, and adapts an
//! array-only kernel so that it serves mixed scalar and array arguments.

pub mod adapter;
pub mod catalog;
pub mod data_type;
pub mod errors;
pub mod functions;
pub mod physical_expr;
pub mod return_type;
pub mod signature;
pub mod sort_properties;
pub mod type_check;
