//! Planning for a cargo subcommand that installs or uninstalls every member
//! of a workspace.
//!
//! The library turns the text of a workspace manifest and a selected
//! operation into the ordered list of `cargo` invocations to run, together
//! with the failure, if any, that ends the run. It performs no I/O itself.

pub mod failure;
pub mod manifest;
pub mod operation;
pub mod plan;
