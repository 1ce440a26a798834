//! What the command line was asked to do.

use vstd::prelude::*;

verus! {

/// The port that is served on where none is given.
pub const DEFAULT_PORT: u16 = 8080;

/// The address that is served on where none is given: every interface.
pub const DEFAULT_HOST: &'static str = "0.0.0.0";

/// A parsed command line.
#[derive(Debug)]
pub struct Cli {
    pub command: Commands,
}

/// The subcommands.
#[derive(Debug)]
pub enum Commands {
    /// Builds the WASM application.
    Build { wasm_debug: bool },
    /// Serves the static directory.
    Serve { port: u16, host: String },
    /// Builds the WASM application and then serves the static directory.
    Dev { port: u16, host: String, wasm_debug: bool },
    /// Runs the tests of the base library, of the application, or of both.
    Test { base: bool, app: bool, browser: Option<String>, headless: bool },
    /// Runs the end-to-end tests.
    E2E {
        ui: bool,
        debug: bool,
        project: Option<String>,
        headed: bool,
        playwright_args: Vec<String>,
    },
}

} // verus!
