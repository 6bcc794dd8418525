//! A self-localizing front end for the `cargo i18n` sub-command.
//!
//! The crate translates its own help text through a message catalog,
//! describes the command line of the sub-command, reads an argument list
//! against that description and decides what the process has to do next.

pub mod catalog;
pub mod messages;
pub mod schema;
pub mod cli;
pub mod dispatch;
pub mod shell;
