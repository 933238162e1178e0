//! A compile-time code-generation engine for a small declarative
//! field-description language ("spread syntax").
//!
//! The library parses token sequences describing field lists, spread-lists
//! (subsets of fields drawn from one source expression) and per-field
//! modifiers, and expands them into struct literals, anonymous-type values,
//! binding statements, function-argument structs and field-subset equality
//! assertions.  Every parser is proved equivalent to a specification-level
//! parser, and every generator is proved to emit exactly the token sequence
//! given by a specification-level renderer.

pub mod anon;
pub mod assert_fields_eq;
pub mod common;
pub mod diag;
pub mod fn_struct;
pub mod scan;
pub mod slet;
pub mod spread;
pub mod token;
