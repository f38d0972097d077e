//! AnchorEdit: a small apply engine on top of AnchorScope.
//!
//! The library holds the decisions of an edit: how the outcome of an
//! AnchorScope `read` leads to the `write` (and with which scope hash), how the
//! outcomes are reported, which command lines the `read` / `write`
//! subcommands run, and how the sliding-bisection search cuts a byte range
//! into overlapping segments. Reading and writing files is the caller's part.

pub mod apply;
pub mod commands;
pub mod error;

pub use apply::{after_read, after_write, ApplyResult, ApplyStep, ScopeRead, ScopeWrite};
pub use error::{ApplyError, ScopeError};
