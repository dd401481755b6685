//! Log-file naming. Each invocation logs to its own file, named after the
//! moment, the command, and the invocation: restored images then keep the
//! previous log alongside the new one.

use vstd::prelude::*;
use vstd::string::StringExecFns;

verus! {

/// The log file name an invocation uses.
pub open spec fn log_file_name_spec(
    timestamp: Seq<char>,
    cmd_name: Seq<char>,
    invocation_id: Seq<char>,
) -> Seq<char> {
    "ff-"@ + timestamp + "-"@ + cmd_name + "-"@ + invocation_id + ".log"@
}

/// Builds the log file name from the invocation's timestamp, the command
/// being run, and the invocation identifier.
pub fn log_file_name(timestamp: &str, cmd_name: &str, invocation_id: &str) -> (r: String)
    ensures
        r@ == log_file_name_spec(timestamp@, cmd_name@, invocation_id@),
{
    let mut r = String::from_str("ff-");
    r.append(timestamp);
    r.append("-");
    r.append(cmd_name);
    r.append("-");
    r.append(invocation_id);
    r.append(".log");
    r
}

} // verus!
