//! What each subcommand does: the commands it runs, in order, and what it
//! serves or reports.

use crate::cli::error::{CliError, CliErrorModel};
use crate::cli::process_runner::{pair_texts, CommandConfig, CommandModel};
use crate::cli::server::{serve_static, ServePlan};
use crate::cli::test_runner::{
    app_test_plan,
    base_test_command,
    is_plan,
    run_app_tests,
    run_base_tests,
};
use crate::cli::wasm_build::{build_command, build_wasm};
use crate::text::{option_text, texts};
use vstd::prelude::*;
use vstd::string::*;

verus! {

/// The files that a build leaves in the package directory.
pub const WASM_OUTPUT_JS: &'static str = "app.js";

pub const WASM_OUTPUT_WASM: &'static str = "app_bg.wasm";

/// What `dev` does: run `build`, and where that succeeds serve `static_dir`
/// on `host` and `port`.
#[derive(Debug)]
pub struct DevPlan {
    pub build: CommandConfig,
    pub static_dir: String,
    pub host: String,
    pub port: u16,
}

/// What `serve` does: print `warnings`, then serve as `plan` says or fail
/// with its error.
#[derive(Debug)]
pub struct ServeReport {
    pub warnings: Vec<String>,
    pub plan: Result<ServePlan, CliError>,
}

/// What `test` does: run `base` where it is given, then each of `app` in
/// order, and stop at the first that is refused or fails.
#[derive(Debug)]
pub struct TestPlan {
    pub base: Option<CommandConfig>,
    pub app: Vec<Result<CommandConfig, CliError>>,
}

/// The warning that `serve` prints where the package directory `pkg_dir`
/// lacks a file of the build.
pub open spec fn missing_output_warning(pkg_dir: Seq<char>) -> Seq<Seq<char>> {
    seq![
        "Warning: WASM output files not found in '"@ + pkg_dir + "'."@,
        "Consider running 'cargo run --bin cli -- build' first."@,
    ]
}

/// The browsers that the application's tests run in where none is asked
/// for.
pub open spec fn default_browsers(on_macos: bool) -> Seq<Seq<char>> {
    if on_macos {
        seq!["chrome"@, "firefox"@, "safari"@]
    } else {
        seq!["chrome"@, "firefox"@]
    }
}

/// The browsers that the application's tests run in: the one asked for, or
/// the default ones.
pub open spec fn test_browsers(browser: Option<Seq<char>>, on_macos: bool) -> Seq<Seq<char>> {
    match browser {
        Some(name) => seq![name],
        None => default_browsers(on_macos),
    }
}

/// Whether `test` runs the tests of the base library: where they are asked
/// for, and where the application's are not.
pub open spec fn runs_base_tests(base: bool, app: bool) -> bool {
    base || !app
}

/// Whether `test` runs the tests of the application: where they are asked
/// for, and where the base library's are not.
pub open spec fn runs_app_tests(base: bool, app: bool) -> bool {
    app || !base
}

/// The flag that selects how the end-to-end tests run. The interactive mode
/// goes before the debugger, and that before a visible browser.
pub open spec fn e2e_mode_flag(ui: bool, debug: bool, headed: bool) -> Seq<Seq<char>> {
    if ui {
        seq!["--ui"@]
    } else if debug {
        seq!["--debug"@]
    } else if headed {
        seq!["--headed"@]
    } else {
        Seq::empty()
    }
}

/// The arguments of the end-to-end test script: its name, the mode, the
/// project where one is given, then whatever else was passed.
pub open spec fn e2e_args(
    ui: bool,
    debug: bool,
    headed: bool,
    project: Option<Seq<char>>,
    additional: Seq<Seq<char>>,
) -> Seq<Seq<char>> {
    seq!["test:e2e"@] + e2e_mode_flag(ui, debug, headed) + (match project {
        Some(name) => seq!["--project"@, name],
        None => Seq::empty(),
    }) + additional
}

/// The command that runs the end-to-end tests from `workspace_root`.
pub open spec fn e2e_command(
    workspace_root: Seq<char>,
    ui: bool,
    debug: bool,
    headed: bool,
    project: Option<Seq<char>>,
    additional: Seq<Seq<char>>,
) -> CommandModel {
    CommandModel {
        program_name: "pnpm"@,
        args: e2e_args(ui, debug, headed, project, additional),
        current_dir: Some(workspace_root),
        env_vars: seq![("CI"@, "true"@)],
        inherit_stdio: true,
    }
}

/// What `build` does: the command that builds the application in `app_path`
/// into `static_pkg_dir_path`.
pub fn handle_build_command(app_path: &str, static_pkg_dir_path: &str, wasm_debug: bool) -> (command:
    CommandConfig)
    ensures
        command@ == build_command(app_path@, static_pkg_dir_path@, wasm_debug),
{
    build_wasm(app_path, static_pkg_dir_path, wasm_debug)
}

/// What `dev` does: build the application in `app_path` into
/// `static_pkg_dir_path`, then serve `static_dir_path` on `host` and `port`.
pub fn handle_dev_command(
    app_path: &str,
    static_dir_path: &str,
    static_pkg_dir_path: &str,
    port: u16,
    host: &str,
    wasm_debug: bool,
) -> (plan: DevPlan)
    ensures
        plan.build@ == build_command(app_path@, static_pkg_dir_path@, wasm_debug),
        plan.static_dir@ == static_dir_path@,
        plan.host@ == host@,
        plan.port == port,
{
    DevPlan {
        build: build_wasm(app_path, static_pkg_dir_path, wasm_debug),
        static_dir: String::from_str(static_dir_path),
        host: String::from_str(host),
        port,
    }
}

/// What `serve` does, given whether both files of the build are in
/// `static_pkg_dir_path` and whether `static_dir_path` is a directory. It
/// warns where a file of the build is missing, and serves all the same.
pub fn handle_serve_command(
    static_dir_path: &str,
    static_pkg_dir_path: &str,
    port: u16,
    host: &str,
    output_present: bool,
    is_dir: bool,
) -> (report: ServeReport)
    ensures
        texts(report.warnings@) == (if output_present {
            Seq::<Seq<char>>::empty()
        } else {
            missing_output_warning(static_pkg_dir_path@)
        }),
        !is_dir ==> report.plan is Err && report.plan->Err_0@ == (
        CliErrorModel::MissingStaticDir { path: static_dir_path@ }),
        is_dir ==> report.plan is Ok && report.plan->Ok_0.static_dir@ == static_dir_path@
            && report.plan->Ok_0.host@ == host@ && report.plan->Ok_0.port == port,
{
    let mut warnings: Vec<String> = Vec::new();
    if !output_present {
        let mut first = String::from_str("Warning: WASM output files not found in '");
        first.append(static_pkg_dir_path);
        first.append("'.");
        warnings.push(first);
        warnings.push(String::from_str("Consider running 'cargo run --bin cli -- build' first."));
        assert(texts(warnings@) =~= missing_output_warning(static_pkg_dir_path@));
    } else {
        assert(texts(warnings@) =~= Seq::<Seq<char>>::empty());
    }
    ServeReport { warnings, plan: serve_static(static_dir_path, is_dir, port, host) }
}

/// The names of the browsers that the application's tests run in where none
/// is asked for: Chrome and Firefox, and on macOS Safari too.
pub fn default_browser_names(on_macos: bool) -> (names: Vec<&'static str>)
    ensures
        names@.map_values(|name: &'static str| name@) == default_browsers(on_macos),
{
    let mut names: Vec<&'static str> = Vec::new();
    names.push("chrome");
    names.push("firefox");
    if on_macos {
        names.push("safari");
    }
    assert(names@.map_values(|name: &'static str| name@) =~= default_browsers(on_macos));
    names
}

/// What `test` does. With neither `base` nor `app` set, or both, it runs the
/// tests of the base library and then those of the application; with one
/// set, only those. The application's tests run in `browser` where one is
/// given, else in each default browser in turn, `on_macos` saying whether
/// Safari is among them.
pub fn handle_test_command(
    app_path: &str,
    base: bool,
    app: bool,
    browser: Option<String>,
    headless: bool,
    on_macos: bool,
) -> (plan: TestPlan)
    ensures
        plan.base is Some <==> runs_base_tests(base, app),
        plan.base is Some ==> plan.base->Some_0@ == base_test_command(),
        !runs_app_tests(base, app) ==> plan.app@.len() == 0,
        runs_app_tests(base, app) ==> {
            let browsers = test_browsers(
                option_text(browser),
                on_macos,
            );
            &&& plan.app@.len() == browsers.len()
            &&& forall|i: int|
                0 <= i < browsers.len() ==> is_plan(
                    #[trigger] plan.app@[i],
                    app_test_plan(app_path@, browsers[i], headless),
                )
        },
{
    let run_base = base || !app;
    let run_app = app || !base;
    let base_step = if run_base {
        Some(run_base_tests())
    } else {
        None
    };
    let mut app_steps: Vec<Result<CommandConfig, CliError>> = Vec::new();
    if run_app {
        match &browser {
            Some(name) => {
                app_steps.push(run_app_tests(app_path, name.as_str(), headless));
            },
            None => {
                let names = default_browser_names(on_macos);
                let ghost browsers = default_browsers(on_macos);
                let mut i: usize = 0;
                while i < names.len()
                    invariant
                        i <= names.len(),
                        names@.map_values(|name: &'static str| name@) == browsers,
                        app_steps@.len() == i,
                        forall|j: int|
                            0 <= j < i ==> is_plan(
                                #[trigger] app_steps@[j],
                                app_test_plan(app_path@, browsers[j], headless),
                            ),
                    decreases names.len() - i,
                {
                    assert(names@.map_values(|name: &'static str| name@)[i as int]
                        == names@[i as int]@);
                    app_steps.push(run_app_tests(app_path, names[i], headless));
                    i = i + 1;
                }
                assert(names@.map_values(|name: &'static str| name@).len() == names@.len());
            },
        }
    }
    TestPlan { base: base_step, app: app_steps }
}

/// What `e2e` does: the command that runs the end-to-end tests from
/// `workspace_root`, in the mode that the flags select, for `project` where
/// one is given, with `additional_args` handed on as they are.
pub fn handle_e2e_command(
    workspace_root: &str,
    ui_mode: bool,
    debug_mode: bool,
    headed_mode: bool,
    project: Option<String>,
    additional_args: Vec<String>,
) -> (command: CommandConfig)
    ensures
        command@ == e2e_command(
            workspace_root@,
            ui_mode,
            debug_mode,
            headed_mode,
            option_text(project),
            texts(additional_args@),
        ),
{
    let ghost expected = e2e_command(
        workspace_root@,
        ui_mode,
        debug_mode,
        headed_mode,
        option_text(project),
        texts(additional_args@),
    );
    let mut args: Vec<String> = Vec::new();
    args.push(String::from_str("test:e2e"));
    if ui_mode {
        args.push(String::from_str("--ui"));
    } else if debug_mode {
        args.push(String::from_str("--debug"));
    } else if headed_mode {
        args.push(String::from_str("--headed"));
    }
    match project {
        Some(name) => {
            args.push(String::from_str("--project"));
            args.push(name);
        },
        None => {},
    }
    let ghost head = texts(args@);
    assert(head + texts(additional_args@) =~= expected.args);
    let mut i: usize = 0;
    while i < additional_args.len()
        invariant
            i <= additional_args.len(),
            texts(args@) == head + texts(additional_args@).take(i as int),
        decreases additional_args.len() - i,
    {
        let ghost before = texts(args@);
        let argument = additional_args[i].clone();
        assert(argument@ == additional_args@[i as int]@);
        args.push(argument);
        i = i + 1;
        proof {
            assert(texts(args@) =~= before.push(argument@));
            assert(texts(additional_args@).take(i as int) =~= texts(additional_args@).take(
                i - 1,
            ).push(argument@));
            assert(texts(args@) =~= head + texts(additional_args@).take(i as int));
        }
    }
    assert(texts(additional_args@).take(i as int) =~= texts(additional_args@));
    let mut env_vars: Vec<(String, String)> = Vec::new();
    env_vars.push((String::from_str("CI"), String::from_str("true")));
    assert(pair_texts(env_vars@) =~= expected.env_vars);
    CommandConfig {
        program_name: String::from_str("pnpm"),
        args,
        current_dir: Some(String::from_str(workspace_root)),
        env_vars,
        inherit_stdio: true,
    }
}

} // verus!
