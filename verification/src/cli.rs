//! The planning half of the development command line: which commands each
//! subcommand runs, with which arguments and in which order, how an outcome
//! is judged, and what is reported. Running them is the caller's part.

pub mod args;
pub mod commands;
pub mod wasm_build;
pub mod error;
pub mod paths;
pub mod process_runner;
pub mod server;
pub mod test_runner;
