//! The commands that run the tests of the base library and of the
//! application.

use crate::cli::error::{CliError, CliErrorModel};
use crate::cli::process_runner::{CommandConfig, CommandModel};
use vstd::prelude::*;
use vstd::string::*;

verus! {

/// The lowercase form of `text`, as `str::to_lowercase` gives it.
pub uninterp spec fn lowercased(text: Seq<char>) -> Seq<char>;

/// The lowercase form of `text`, through `str::to_lowercase` of the standard
/// library. The contract only names the result: it is a function of the text
/// alone, given by the case mappings of Unicode.
#[verifier::external_body]
fn to_lowercase(text: &str) -> (lowered: String)
    ensures
        lowered@ == lowercased(text@),
{
    text.to_lowercase()
}

/// The flag that selects the browser named `lowered` for the application's
/// tests, where the name is one of the three that they run in.
pub open spec fn spec_browser_flag(lowered: Seq<char>) -> Option<Seq<char>> {
    if lowered == "chrome"@ {
        Some("--chrome"@)
    } else if lowered == "firefox"@ {
        Some("--firefox"@)
    } else if lowered == "safari"@ {
        Some("--safari"@)
    } else {
        None
    }
}

/// The arguments that `wasm-pack` is given to run the application's tests
/// in the browser that `flag` selects.
pub open spec fn app_test_args(flag: Seq<char>, headless: bool) -> Seq<Seq<char>> {
    seq!["test"@, flag] + (if headless {
        seq!["--headless"@]
    } else {
        Seq::empty()
    })
}

/// The command that runs the application's tests in `app_path`, in the
/// browser that `flag` selects.
pub open spec fn app_test_command(app_path: Seq<char>, flag: Seq<char>, headless: bool) -> CommandModel {
    CommandModel {
        program_name: "wasm-pack"@,
        args: app_test_args(flag, headless),
        current_dir: Some(app_path),
        env_vars: seq![("RUST_LOG"@, "warn"@)],
        inherit_stdio: true,
    }
}

/// The command that runs the tests of the base library.
pub open spec fn base_test_command() -> CommandModel {
    CommandModel {
        program_name: "cargo"@,
        args: seq!["test"@, "-p"@, "base"@],
        current_dir: None,
        env_vars: Seq::empty(),
        inherit_stdio: true,
    }
}

/// What the application's tests in `browser` come to: the command that runs
/// them, or the refusal of a browser that they do not run in. The browser's
/// name counts in its lowercase form.
pub open spec fn app_test_plan(
    app_path: Seq<char>,
    browser: Seq<char>,
    headless: bool,
) -> Result<CommandModel, CliErrorModel> {
    match spec_browser_flag(lowercased(browser)) {
        Some(flag) => Ok(app_test_command(app_path, flag, headless)),
        None => Err(CliErrorModel::UnsupportedBrowser { browser }),
    }
}

/// Whether `result` is the plan `plan`.
pub open spec fn is_plan(
    result: Result<CommandConfig, CliError>,
    plan: Result<CommandModel, CliErrorModel>,
) -> bool {
    match plan {
        Ok(command) => result is Ok && result->Ok_0@ == command,
        Err(error) => result is Err && result->Err_0@ == error,
    }
}

/// The flag that selects the browser named `lowered`, a name already in
/// lowercase: `--chrome`, `--firefox` or `--safari` for the browser of that
/// name, and none for any other.
pub fn browser_flag(lowered: &str) -> (flag: Option<&'static str>)
    ensures
        spec_browser_flag(lowered@) is Some <==> flag is Some,
        flag is Some ==> flag->Some_0@ == spec_browser_flag(lowered@)->Some_0,
{
    let name = String::from_str(lowered);
    if name == String::from_str("chrome") {
        Some("--chrome")
    } else if name == String::from_str("firefox") {
        Some("--firefox")
    } else if name == String::from_str("safari") {
        Some("--safari")
    } else {
        None
    }
}

/// The command that runs the tests of the base library: `cargo test -p
/// base`, in the caller's directory.
pub fn run_base_tests() -> (command: CommandConfig)
    ensures
        command@ == base_test_command(),
{
    let mut args: Vec<String> = Vec::new();
    args.push(String::from_str("test"));
    args.push(String::from_str("-p"));
    args.push(String::from_str("base"));
    let command = CommandConfig {
        program_name: String::from_str("cargo"),
        args,
        current_dir: None,
        env_vars: Vec::new(),
        inherit_stdio: true,
    };
    proof {
        assert(command@.args =~= base_test_command().args);
        assert(command@.env_vars =~= base_test_command().env_vars);
    }
    command
}

/// The command that runs the application's tests in `app_path` with the
/// browser that `flag` selects, headless or not, with logging turned down
/// to warnings.
pub fn app_test_command_for(app_path: &str, flag: &str, headless: bool) -> (command: CommandConfig)
    ensures
        command@ == app_test_command(app_path@, flag@, headless),
{
    let mut args: Vec<String> = Vec::new();
    args.push(String::from_str("test"));
    args.push(String::from_str(flag));
    if headless {
        args.push(String::from_str("--headless"));
    }
    let mut env_vars: Vec<(String, String)> = Vec::new();
    env_vars.push((String::from_str("RUST_LOG"), String::from_str("warn")));
    let command = CommandConfig {
        program_name: String::from_str("wasm-pack"),
        args,
        current_dir: Some(String::from_str(app_path)),
        env_vars,
        inherit_stdio: true,
    };
    proof {
        let expected = app_test_command(app_path@, flag@, headless);
        assert(command@.args =~= expected.args);
        assert(command@.env_vars =~= expected.env_vars);
    }
    command
}

/// The command that runs the application's tests in `browser`, or
/// `UnsupportedBrowser` where the lowercase form of `browser` is none of
/// `chrome`, `firefox` and `safari`.
pub fn run_app_tests(app_path: &str, browser: &str, headless: bool) -> (result: Result<
    CommandConfig,
    CliError,
>)
    ensures
        is_plan(result, app_test_plan(app_path@, browser@, headless)),
{
    let lowered = to_lowercase(browser);
    match browser_flag(lowered.as_str()) {
        Some(flag) => Ok(app_test_command_for(app_path, flag, headless)),
        None => Err(CliError::UnsupportedBrowser { browser: String::from_str(browser) }),
    }
}

} // verus!
