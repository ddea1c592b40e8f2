//! Core state of an interactive browser for a list of named protocol
//! records: live substring filtering, wrap-around selection, a one-entry
//! payload cache, and the screen/focus state machine that routes key input.
//!
//! The library is pure bookkeeping: reading events, querying the data
//! source and drawing the screen stay outside and talk to it through
//! plain values.
use vstd::prelude::*;

pub mod app;
pub mod component;
pub mod laws;
pub mod model;

verus! {

/// Errors the library can report to its callers.
#[derive(Clone, Copy, Debug, PartialEq, Eq, Structural)]
pub enum AppError {
    /// An input field identifier was not present in the arena.
    InputNotFound,
    /// A filtered index pointed outside the record list.
    RecordNotFound,
}

} // verus!
