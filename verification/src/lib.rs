//! Verified core of an interactive helper around `git`: configuration
//! settings, commit history records, the revert and rebase workflows and the
//! log viewer's state machine.

pub mod backend;
pub mod config;
pub mod confirm;
pub mod error;
pub mod history;
pub mod keys;
pub mod log;
pub mod rebase;
pub mod revert;
pub mod select;
pub mod text;
pub mod view;
