//! The layout of one line of the log.

use vstd::prelude::*;
use vstd::string::StringExecFns;

verus! {

/// One line of the log: the level and the target, each in square brackets,
/// then a dash, the message and a newline.
pub open spec fn record_line(level: Seq<char>, target: Seq<char>, message: Seq<char>) -> Seq<
    char,
> {
    "["@ + level + "] ["@ + target + "] - "@ + message + "\n"@
}

/// Lays out one line of the log.
pub fn format_record(level: &str, target: &str, message: &str) -> (line: String)
    ensures
        line@ == record_line(level@, target@, message@),
{
    let mut line = String::from_str("[");
    line.append(level);
    line.append("] [");
    line.append(target);
    line.append("] - ");
    line.append(message);
    line.append("\n");
    line
}

} // verus!
