//! A minimal terminal-UI application shell.
//!
//! The crate models the core of such a shell: a vocabulary of input
//! events, the decode-and-filter step that turns raw terminal input into
//! typed events, and an application state whose only transition is
//! quitting on the right keystroke. Every function here carries a
//! contract that pins down the state transition it performs.

pub mod app;
pub mod error;
pub mod event;
