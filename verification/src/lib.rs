//! Turns a free-form objective into one shell command line with the help of
//! a remote completion service: the decisions of that pipeline, from the
//! command-line arguments to the command that is run, with their contracts.
//! Reading files, asking the terminal, sending the request and starting the
//! child process are left to the caller, which performs the actions that
//! the pipeline hands out and reports back what happened.

pub mod config;
pub mod confirm;
pub mod extract;
pub mod json;
pub mod pipeline;
pub mod prompt;
pub mod request;
pub mod text;
