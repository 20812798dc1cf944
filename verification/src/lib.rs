//! Severity annotations on enum variants, and the `ErrorLevel` implementation
//! generated from them.
//!
//! A variant of an enum is given a severity by the attribute `level(..)` in
//! front of it, as in `#[level(Warn)]`. This crate reads those annotations and
//! writes the text of `impl ErrorLevel for ..`.
//!
//! - [`syntax`] describes a type definition in plain data.
//! - [`level`] is the vocabulary: the six severities and their spellings.
//! - [`extract`] finds the severity of each variant.
//! - [`synth`] writes the implementation.
//! - [`error`] lists why an expansion is given up.
//! - [`laws`] holds what is proved of every expansion.
//! - [`text`] compares identifier text.

pub mod error;
pub mod extract;
pub mod laws;
pub mod level;
pub mod synth;
pub mod syntax;
pub mod text;
