//! Abstract syntax tree for the front end of an embeddable scripting
//! language.
//!
//! The tree pairs every statement and expression with a source location,
//! keeps parse failures as inert `Error` nodes so a parse can continue past
//! them, and offers a deterministic structural rendering for diagnostics and
//! snapshot tests.

pub mod ast;
pub mod render;
