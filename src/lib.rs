//! Parsing of `#[account(...)]` annotations on the fields of an accounts struct
//! into a typed description of each field: its account type, its constraints
//! and the flags derived from them.

pub mod tokens;
pub mod ast;
pub mod text;
pub mod constraints;
pub mod accounts;
pub mod laws;
