//! Compile-time pipeline generator, modelled on plain data.
//!
//! Given a struct with exactly one named field of type `Option<T>`, the
//! generator emits a family of chaining methods (`process3`, `process4`)
//! that run fallible transformation steps over the wrapped value,
//! short-circuiting on the first absent result.  A small attribute
//! mini-language (`skip`, `timeout`, plus passthrough of unknown keys)
//! alters what gets generated.
//!
//! The syntax-tree plumbing (token streams, spans, rendering) lives outside
//! this crate; here every decision the generator makes is stated over the
//! crate's own descriptor types and verified.

pub mod attributes;
pub mod codegen;
pub mod digits;
pub mod generated;
pub mod pipeline;
pub mod tokens;
