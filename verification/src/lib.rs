//! Conversion of enumeration and tagged-error declarations of an interface
//! definition language into language-neutral metadata records.
//!
//! A declaration comes in one of four forms: an enum block, an enum block
//! that declares an error, an enum interface, and an enum interface that
//! declares an error. The first and third become the record of an
//! enumeration, the second and fourth the record of an error, which wraps an
//! enumeration.
//!
//! - [`syntax`]: the declarations, as a parser hands them over.
//! - [`metadata`]: the records.
//! - [`attributes`]: the meaning of an attribute list.
//! - [`docstring`]: doc comments.
//! - [`variants`]: the variants of a declaration.
//! - [`context`]: the state of one compilation pass.
//! - [`convert`]: the four conversions, and the choice among them.
//! - [`error`]: why a conversion fails.
//! - [`laws`]: what holds of every conversion.

pub mod attributes;
pub mod context;
pub mod convert;
pub mod docstring;
pub mod error;
pub mod laws;
pub mod metadata;
pub mod syntax;
pub mod variants;
