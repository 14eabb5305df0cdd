//! Decisions of a JavaScript minifier about expressions and statements, with machine-checked
//! contracts.

pub mod convert;
pub mod cost;
pub mod cost_laws;
pub mod effects;
pub mod ident;
pub mod laws;
pub mod negate;
pub mod negate_laws;
pub mod number;
pub mod number_laws;
pub mod outside;
pub mod query_laws;
pub mod spans;
pub mod stmt;
pub mod syntax;
pub mod syntax_laws;
pub mod target;
mod text;
pub mod undefined;
pub mod value;
