//! Verified decision core of the EVA evolution runtime: task and mutation
//! validation, mutation generation from plans, candidate classification,
//! release health and gating, runtime validation, and the report text that
//! these decisions produce.
pub mod analyzer;
pub mod contracts;
pub mod digest;
pub mod evolution;
pub mod github;
pub mod graph;
pub mod ordering;
pub mod paths;
pub mod rust_ast;
pub mod rust_lex;
pub mod text;
