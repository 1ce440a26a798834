//! The command that builds the WASM application.

use crate::cli::process_runner::{CommandConfig, CommandModel};
use vstd::prelude::*;
use vstd::string::*;

verus! {

/// The arguments that `wasm-pack` is given to build the application into
/// `out_dir`: a web build named `app`, then either the development profile
/// or the release profile with its features.
pub open spec fn build_args(out_dir: Seq<char>, debug_mode: bool) -> Seq<Seq<char>> {
    seq!["build"@, "--target"@, "web"@, "--out-dir"@, out_dir, "--out-name"@, "app"@] + (
    if debug_mode {
        seq!["--dev"@]
    } else {
        seq!["--release"@, "--features"@, "default wee_alloc"@]
    })
}

/// The command that builds the application in `crate_path` into `out_dir`.
pub open spec fn build_command(
    crate_path: Seq<char>,
    out_dir: Seq<char>,
    debug_mode: bool,
) -> CommandModel {
    CommandModel {
        program_name: "wasm-pack"@,
        args: build_args(out_dir, debug_mode),
        current_dir: Some(crate_path),
        env_vars: Seq::empty(),
        inherit_stdio: true,
    }
}

/// The word that reports name the build's profile by.
pub fn build_type(debug_mode: bool) -> (name: &'static str)
    ensures
        name@ == (if debug_mode {
            "debug"@
        } else {
            "release"@
        }),
{
    if debug_mode {
        "debug"
    } else {
        "release"
    }
}

/// The command that builds the application in `crate_path` into `out_dir`,
/// in the development profile where `debug_mode` is set and in the release
/// profile else. It runs in `crate_path` and shares the caller's output.
pub fn build_wasm(crate_path: &str, out_dir: &str, debug_mode: bool) -> (command: CommandConfig)
    ensures
        command@ == build_command(crate_path@, out_dir@, debug_mode),
{
    let mut args: Vec<String> = Vec::new();
    args.push(String::from_str("build"));
    args.push(String::from_str("--target"));
    args.push(String::from_str("web"));
    args.push(String::from_str("--out-dir"));
    args.push(String::from_str(out_dir));
    args.push(String::from_str("--out-name"));
    args.push(String::from_str("app"));
    if debug_mode {
        args.push(String::from_str("--dev"));
    } else {
        args.push(String::from_str("--release"));
        args.push(String::from_str("--features"));
        args.push(String::from_str("default wee_alloc"));
    }
    let command = CommandConfig {
        program_name: String::from_str("wasm-pack"),
        args,
        current_dir: Some(String::from_str(crate_path)),
        env_vars: Vec::new(),
        inherit_stdio: true,
    };
    proof {
        let expected = build_command(crate_path@, out_dir@, debug_mode);
        assert(command@.args =~= expected.args);
        assert(command@.env_vars =~= expected.env_vars);
    }
    command
}

} // verus!
