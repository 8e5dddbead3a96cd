//! A tree-walking evaluator for a minimal expression language.
//!
//! The evaluator consumes already-parsed abstract-syntax-tree nodes and
//! reduces them against a single mutable global environment, producing
//! runtime values and console output.  Every fault (a type mismatch, an
//! unbound name, an unknown callee, a missing argument, a division gone
//! wrong) is surfaced as a structured error that aborts the run.

pub mod ast;
pub mod fault;
pub mod interp;
pub mod laws;
pub mod semantics;
pub mod state;
pub mod value;
