//! A small host for an embedded script engine: the decisions of the
//! read-eval-print loop, the shape of an evaluation's outcome, and the
//! source-mapped rendering of a thrown exception.

pub mod diagnostic;
pub mod evaluator;
pub mod driver;

