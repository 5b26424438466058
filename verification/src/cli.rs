//! The command-line decision: extract the named archive, or print the usage
//! line and fail.

use vstd::prelude::*;
use vstd::string::StringExecFns;

verus! {

/// What the process does for the given arguments.
#[derive(Debug, PartialEq, Eq)]
pub enum CliAction {
    /// Print this usage line and exit with code 1, touching nothing.
    Usage(String),
    /// Extract the archive at this path.
    Extract(String),
}

/// The usage line, naming the program.
pub open spec fn usage_line(prog: Seq<char>) -> Seq<char> {
    "Usage: "@ + prog + " <filename>"@
}

/// Decides the action for the process's arguments, the program name first:
/// without a filename argument, the usage line and failure; otherwise the
/// first argument names the archive.
pub fn parse_args(args: &Vec<String>) -> (r: CliAction)
    requires
        args@.len() >= 1,
    ensures
        args@.len() < 2 ==> (r matches CliAction::Usage(u) && u@ == usage_line(args@[0]@)),
        args@.len() >= 2 ==> (r matches CliAction::Extract(p) && p@ == args@[1]@),
{
    if args.len() < 2 {
        let mut s = String::new();
        s.append("Usage: ");
        s.append(args[0].as_str());
        s.append(" <filename>");
        proof {
            assert(s@ =~= usage_line(args@[0]@));
        }
        CliAction::Usage(s)
    } else {
        CliAction::Extract(args[1].clone())
    }
}

} // verus!
