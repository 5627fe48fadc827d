//! Pattern-driven parsing: a declarative description of a struct or enum,
//! each shape annotated with regular-expression patterns, is compiled into a
//! parser that turns raw strings into typed values.
//!
//! A [`schema::TypeDecl`] describes one declared type: its shape (unit, named
//! or positional fields) and the patterns attached to it or to its variants.
//! [`parser::Parser::new`] compiles every pattern exactly once; an instance of
//! [`parser::Parser`] then answers [`parser::Parser::parse`] calls, trying the
//! patterns in declaration order, binding capture groups positionally to
//! fields, and reporting a precise error when matching or conversion fails.

pub mod bind;
pub mod convert;
pub mod engine;
pub mod error;
pub mod laws;
pub mod matching;
pub mod parser;
pub mod render;
pub mod schema;
pub mod value;
