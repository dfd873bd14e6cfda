//! The decisions of the `bevy_lint` and `bevy_lint_driver` command-line programs.

use vstd::prelude::*;

use crate::callback::strings_seq;
use crate::text::{concat, to_owned};

verus! {

/// What `bevy_lint` does for its command line.
#[derive(Clone, Copy, Debug, PartialEq, Eq, Structural)]
pub enum CliAction {
    /// `-h` or `--help`: print the help and exit.
    ShowHelp,
    /// `-V` or `--version`: print the version and exit.
    ShowVersion,
    /// Run `cargo check`, or `cargo fix` with `--fix`, passing the other arguments on.
    Check { fix: bool },
}

/// The action for the flags found on the command line: help wins over version, which wins
/// over checking.
pub fn cli_action(help: bool, version: bool, fix: bool) -> (r: CliAction)
    ensures
        r == if help {
            CliAction::ShowHelp
        } else if version {
            CliAction::ShowVersion
        } else {
            CliAction::Check { fix }
        },
{
    if help {
        CliAction::ShowHelp
    } else if version {
        CliAction::ShowVersion
    } else {
        CliAction::Check { fix }
    }
}

/// The Cargo subcommand to run: `fix` with `--fix`, `check` otherwise.
pub fn cargo_subcommand(fix: bool) -> (r: &'static str)
    ensures
        r@ == if fix {
            "fix"@
        } else {
            "check"@
        },
{
    if fix {
        "fix"
    } else {
        "check"
    }
}

/// The environment variable that lists where shared libraries are found on an operating
/// system: `PATH` on Windows, `DYLD_LIBRARY_PATH` on macOS, `LD_LIBRARY_PATH` elsewhere.
pub fn library_path_var(os: &str) -> (r: &'static str)
    ensures
        r@ == if os@ == "windows"@ {
            "PATH"@
        } else if os@ == "macos"@ {
            "DYLD_LIBRARY_PATH"@
        } else {
            "LD_LIBRARY_PATH"@
        },
{
    if crate::text::str_eq(os, "windows") {
        "PATH"
    } else if crate::text::str_eq(os, "macos") {
        "DYLD_LIBRARY_PATH"
    } else {
        "LD_LIBRARY_PATH"
    }
}

/// The folder of a sysroot that holds the compiler's shared library: `bin` on Windows, `lib`
/// elsewhere.
pub fn library_dir(os: &str) -> (r: &'static str)
    ensures
        r@ == if os@ == "windows"@ {
            "bin"@
        } else {
            "lib"@
        },
{
    if crate::text::str_eq(os, "windows") {
        "bin"
    } else {
        "lib"
    }
}

/// The exit code of `bevy_lint` for Cargo's exit status: 0 on success, otherwise Cargo's own
/// code truncated to its low byte, or 1 when Cargo was ended by a signal and has none.
pub fn exit_code(success: bool, code: Option<i32>) -> (r: u8)
    ensures
        r == if success {
            0u8
        } else {
            match code {
                Some(c) => c as u8,
                None => 1u8,
            }
        },
{
    if success {
        0
    } else {
        match code {
            Some(c) => {
                #[verifier::truncate]
                let b = c as u8;
                b
            },
            None => 1,
        }
    }
}

/// `{name} v{version}`, as `--version` prints it.
pub fn version_line(name: &str, version: &str) -> (r: String)
    ensures
        r@ == name@ + " v"@ + version@,
{
    let r = concat(&[name, " v", version]);
    proof {
        reveal_with_fuel(crate::text::concat_all, 4);
    }
    r
}

/// The compiler's arguments from those of `bevy_lint_driver`. Called by Cargo, the arguments
/// are `[driver, rustc, args...]` and the driver's path is dropped; called by a user, they are
/// `[driver, args...]` and the driver's path is replaced by `rustc`. `second_is_rustc` tells
/// whether the second argument is a path whose file stem is `rustc`.
pub fn driver_args(args: Vec<String>, second_is_rustc: bool) -> (r: Vec<String>)
    requires
        args@.len() >= 1,
        second_is_rustc ==> args@.len() >= 2,
    ensures
        strings_seq(r@) == if second_is_rustc {
            strings_seq(args@).skip(1)
        } else {
            strings_seq(args@).update(0, "rustc"@)
        },
{
    let mut args = args;
    if second_is_rustc {
        let ghost before = strings_seq(args@);
        args.remove(0);
        assert(strings_seq(args@) =~= before.skip(1));
        args
    } else {
        let ghost before = strings_seq(args@);
        args.set(0, to_owned("rustc"));
        assert(strings_seq(args@) =~= before.update(0, "rustc"@));
        args
    }
}

} // verus!
