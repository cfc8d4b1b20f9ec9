//! A small compiler for validation chains: it parses a textual description of
//! one or more chains, each an ordered list of field-validation steps over one
//! subject type with one unified error type, and emits Rust source text that
//! implements every chain as a short-circuiting sequential pipeline.

pub mod ast;
pub mod lexer;
pub mod parser;
pub mod gen;
pub mod chain_exec;
pub mod semantics;
