//! Synthesis of a combined error type for a function, from a list of the
//! error types that the function may propagate.
//!
//! The library works on plain values: the attribute arguments and the shape of
//! the annotated function come in as strings, and the generated definitions come
//! out as source text together with the function's new return type.

pub mod expand;
pub mod laws;
pub mod naming;
pub mod render;
pub mod syntax;
pub mod synth;
pub mod text;
