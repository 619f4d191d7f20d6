//! A launcher library for self-building scripts: a source file in any
//! language carries its own build recipe in a delimited comment block, and
//! this library extracts that configuration, reconstructs the script body,
//! and computes the exact binary and argument vector to hand to the
//! operating system.
#![verifier::loop_isolation(false)]

use vstd::prelude::*;
use vstd::string::StringExecFns;

pub mod cfg;
pub mod error;
pub mod extract;
pub mod launch;
pub mod opt;
pub mod text;
pub mod yaml;

verus! {

/// The fast path of command-line handling: when the first real argument
/// names an existing script file, the whole invocation is a script run and
/// no subcommand grammar applies. The caller resolves that argument against
/// the filesystem and passes its absolute form in `first_arg_abs`, or `None`
/// when it does not resolve to an existing file; a `None` result tells the
/// caller to fall back to subcommand parsing.
pub fn opt_from_args(args: &Vec<String>, first_arg_abs: &Option<String>) -> (r: Option<opt::Opt>)
    ensures
        (args@.len() >= 2 && first_arg_abs is Some) ==> (r matches Some(o) && o.cmd is None
            && o.command.deep_view() == seq![first_arg_abs->0@] + args.deep_view().skip(2)),
        (args@.len() < 2 || first_arg_abs is None) ==> r is None,
{
    if args.len() < 2 {
        return None;
    }
    match first_arg_abs {
        None => None,
        Some(abs) => {
            let mut command: Vec<String> = Vec::new();
            command.push(abs.clone());
            proof {
                assert(command.deep_view() =~~= seq![abs@] + args.deep_view().subrange(2, 2));
            }
            let n = args.len();
            let mut i: usize = 2;
            while i < n
                invariant
                    2 <= i <= n,
                    n == args@.len(),
                    command.deep_view() == seq![abs@] + args.deep_view().subrange(2, i as int),
                decreases n - i,
            {
                let ghost pre_dv = command.deep_view();
                let a = args[i].clone();
                proof {
                    assert(a@ == args.deep_view()[i as int]);
                }
                command.push(a);
                i = i + 1;
                proof {
                    assert(command.deep_view() =~~= pre_dv.push(args.deep_view()[i - 1]));
                    assert(command.deep_view() =~~= seq![abs@] + args.deep_view().subrange(
                        2,
                        i as int,
                    ));
                }
            }
            proof {
                assert(seq![abs@] + args.deep_view().subrange(2, n as int) =~~= seq![abs@]
                    + args.deep_view().skip(2));
            }
            Some(opt::Opt { command, cmd: None })
        },
    }
}

/// A script argument adjusted to a path form: a value that does not already
/// start with `.` or `/` gains a `./` prefix, so that it resolves relative
/// to the working directory.
pub fn normalize_script_arg(s: &str) -> (r: String)
    ensures
        (s@.len() > 0 && (s@[0] == '.' || s@[0] == '/')) ==> r@ == s@,
        !(s@.len() > 0 && (s@[0] == '.' || s@[0] == '/')) ==> r@ == "./"@ + s@,
{
    let cs = text::chars_of(s);
    if cs.len() > 0 && (cs[0] == '.' || cs[0] == '/') {
        String::from_str(s)
    } else {
        String::from_str("./").concat(s)
    }
}

} // verus!
