//! Exhaustive search for chess move sequences matching a per-ply constraint
//! pattern ("steno"): a pattern compiler, a per-ply constraint evaluator, and
//! a depth-bounded enumeration engine over the legal-move tree, with the
//! chess rules themselves supplied by an outside collaborator.

pub mod board;
pub mod engine;
pub mod eval;
pub mod pattern;
