//! The lines of the service's log.

use vstd::prelude::*;
use vstd::string::*;

verus! {

/// The text of a log line: the time, the category in square brackets, the
/// message, a line end.
pub open spec fn log_text(timestamp: Seq<char>, category: Seq<char>, message: Seq<char>) -> Seq<
    char,
> {
    timestamp + " ["@ + category + "] "@ + message + "\n"@
}

/// Writes one line of the log.
pub fn log_line(timestamp: &str, category: &str, message: &str) -> (r: String)
    ensures
        r@ == log_text(timestamp@, category@, message@),
{
    let mut out = timestamp.to_owned();
    out.append(" [");
    out.append(category);
    out.append("] ");
    out.append(message);
    out.append("\n");
    out
}

} // verus!
