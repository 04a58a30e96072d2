//! The command-line flags.

use vstd::prelude::*;

use crate::text::same_text;

verus! {

/// What the command line asks for.
#[derive(Clone, Copy, Debug, PartialEq, Eq, Structural)]
pub struct Options {
    /// Print the usage text and stop (`-h`).
    pub help: bool,
    /// Print the full report rather than the compact one (`-f`).
    pub full: bool,
}

/// Some argument is exactly `flag`.
pub open spec fn has_flag(args: Seq<String>, flag: Seq<char>) -> bool {
    exists|i: int| 0 <= i < args.len() && (#[trigger] args[i])@ == flag
}

/// Whether some argument is exactly `flag`.
pub fn find_flag(args: &Vec<String>, flag: &str) -> (r: bool)
    ensures
        r == has_flag(args@, flag@),
{
    let mut i: usize = 0;
    while i < args.len()
        invariant
            i <= args.len(),
            forall|j: int| 0 <= j < i ==> (#[trigger] args@[j])@ != flag@,
        decreases args.len() - i,
    {
        if same_text(args[i].as_str(), flag) {
            return true;
        }
        i = i + 1;
    }
    false
}

/// Reads the flags from the arguments: `-h` asks for help, `-f` for the
/// full report. Other arguments are ignored.
pub fn parse_options(args: &Vec<String>) -> (o: Options)
    ensures
        o.help == has_flag(args@, "-h"@),
        o.full == has_flag(args@, "-f"@),
{
    Options { help: find_flag(args, "-h"), full: find_flag(args, "-f") }
}

} // verus!
