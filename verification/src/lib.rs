//! A line-oriented, UCI-style protocol front-end for a chess rules engine.
//!
//! The crate turns whitespace-delimited command lines into directives,
//! rebuilds board state from the start position or an encoded position
//! string, applies move lists in order while tolerating individual bad
//! moves, and models the diagnostic-verbosity switch.  The rules engine
//! itself (legal moves, position encoding) is the `chess` crate, reached
//! through a small set of trusted wrappers.

pub mod apply;
pub mod board;
pub mod command;
pub mod diag;
pub mod dispatch;
pub mod tokens;
