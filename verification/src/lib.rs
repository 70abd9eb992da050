//! Core of a command-line client for a cloud infrastructure provider.
//!
//! Every resource action follows the same fixed pipeline:
//! preview the outbound request, stop on a dry run, ask the user to
//! confirm a mutating operation, execute it against the backend, and
//! report the outcome uniformly.  This crate holds that pipeline and
//! the value types it runs on; argument parsing and the network client
//! live outside it.

pub mod action;
pub mod confirm;
pub mod context;
pub mod outcome;
pub mod paint;
pub mod pipeline;
pub mod render;
pub mod text;
