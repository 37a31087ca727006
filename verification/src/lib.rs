//! Verified core of a desktop calculator: keypad and expression bookkeeping,
//! interpretation of the evaluator's output, and the supervisor that keeps a
//! search daemon alive behind a single event stream.

pub mod calculator;
pub mod error;
pub mod launcher;
pub mod operator;
pub mod text;
