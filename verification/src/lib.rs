//! A source-to-source transformer that turns an abstract enumeration
//! declaration (a named list of bare symbolic variants, each optionally
//! carrying an explicit integer-valued discriminant expression) into an
//! equivalent value-wrapper declaration: a single-field carrier of a backing
//! integer type, one named constant per variant, conversions in both
//! directions between the wrapper and its raw value, fallible conversions
//! between the wrapper and the variant names, an optional debug formatter,
//! an optional default value, and a shadow re-declaration of the original
//! shape that lets a downstream compiler catch future edits.
//!
//! The transformation is a pure function from a declaration and its
//! attributes to either a synthesized fragment or a terminal diagnostic; it
//! performs no I/O. Reading the host language's concrete syntax into the
//! abstract model, and rendering the fragment back out, are left to the
//! caller.

pub mod ast;
pub mod classify;
pub mod decimal;
pub mod diag;
pub mod discriminant;
pub mod expr;
pub mod laws;
pub mod repr;
pub mod semantics;
pub mod synth;
