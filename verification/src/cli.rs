//! The command line.

use vstd::prelude::*;
use crate::server;
use crate::common::text::{append_decimal, decimal};

verus! {

/// The parsed command line.
#[derive(Debug, Clone)]
pub struct Cli {
    pub command: Commands,
}

/// The subcommands.
#[derive(Debug, Clone)]
pub enum Commands {
    /// Start the release knock server
    Server(server::Command),
}

/// The log line for a record of level `level`, logged at `time`, from
/// `file` at `line` (when known), with the text `message`.
pub open spec fn log_line(
    level: Seq<char>,
    time: Seq<char>,
    file: Option<Seq<char>>,
    line: Option<u32>,
    message: Seq<char>,
) -> Seq<char> {
    level + " ["@ + time + "] [caller:\""@ + match file {
        Some(f) => f,
        None => "unknown caller file"@,
    } + ":"@ + decimal(
        match line {
            Some(l) => l as nat,
            None => 0,
        },
    ) + "\"] "@ + message
}

/// The model of an optional string.
pub open spec fn opt_str_view(s: Option<&str>) -> Option<Seq<char>> {
    match s {
        Some(t) => Some(t@),
        None => None,
    }
}

/// Formats one log line: `LEVEL [time] [caller:"file:line"] message`, with
/// `unknown caller file` and `0` for an unknown file and line.
pub fn format_log_line(
    level: &str,
    time: &str,
    file: Option<&str>,
    line: Option<u32>,
    message: &str,
) -> (res: String)
    ensures
        res@ == log_line(level@, time@, opt_str_view(file), line, message@),
{
    let mut res = String::from_str(level);
    res.append(" [");
    res.append(time);
    res.append("] [caller:\"");
    match file {
        Some(f) => res.append(f),
        None => res.append("unknown caller file"),
    }
    res.append(":");
    match line {
        Some(l) => append_decimal(&mut res, l as u64),
        None => append_decimal(&mut res, 0),
    }
    res.append("\"] ");
    res.append(message);
    res
}

} // verus!
