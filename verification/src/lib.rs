//! Lowers a small arithmetic expression tree, together with a declared target
//! numeric type, into an equivalent tree in which every literal and variable
//! leaf carries an explicit coercion to that target type.
//!
//! The engine is a pure structural rewrite: internal nodes (binary and unary
//! operators, groupings, calls to the two built-in functions `max` and `min`)
//! are re-emitted unchanged, and every leaf is wrapped in exactly one coercion.
//! Unsupported shapes abort the whole transformation with a precise error.

pub mod ast;
pub mod digits;
pub mod engine;
pub mod laws;
