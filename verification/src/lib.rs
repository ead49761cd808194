//! Turns a Rust library project into an OHOS Stage Model shell project and
//! plans the build and packaging steps for it.
use vstd::prelude::*;

pub mod cli;
pub mod commands;
pub mod config;
pub mod error;
pub mod paths;
pub mod project;
pub mod runner;
pub mod sdk;
pub mod template;
pub mod text;

verus! {

/// Whether an argument is the name under which cargo forwards to this
/// subcommand.
pub open spec fn is_subcommand_name(arg: Seq<char>) -> bool {
    arg == "ohos-app"@ || arg == "harmony-app"@
}

/// Drops the subcommand name that cargo passes as the second argument when
/// the program runs as `cargo ohos-app` (or `cargo harmony-app`).
pub fn normalize_args(args: Vec<String>) -> (res: Vec<String>)
    ensures
        args@.len() > 1 && is_subcommand_name(args@[1]@) ==> res@ == args@.remove(1),
        !(args@.len() > 1 && is_subcommand_name(args@[1]@)) ==> res@ == args@,
{
    let mut args = args;
    if args.len() > 1 {
        let forwarded = text::str_eq(args[1].as_str(), "ohos-app") || text::str_eq(args[1].as_str(), "harmony-app");
        if forwarded {
            args.remove(1);
        }
    }
    args
}

} // verus!
