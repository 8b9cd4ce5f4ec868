//! The lines of the log.

use vstd::prelude::*;

verus! {

/// The line that the log holds for the message `msg` of level `log_level`,
/// written at `time`: time and level in square brackets, each followed by a
/// colon and a blank, then the message and a line break.
pub fn log_line(time: &str, log_level: &str, msg: &str) -> (line: String)
    ensures
        line@ == "["@ + time@ + "]: ["@ + log_level@ + "]: "@ + msg@ + "\n"@,
{
    let mut line = String::from_str("[");
    line.append(time);
    line.append("]: [");
    line.append(log_level);
    line.append("]: ");
    line.append(msg);
    line.append("\n");
    line
}

} // verus!
