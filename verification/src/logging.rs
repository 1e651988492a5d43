//! How the process logs: the decisions taken before anything else starts.

use crate::host::stdout_is_tty;
use crate::options::{Color, LogFormat};
use vstd::prelude::*;
use vstd::string::StringExecFns;

verus! {

/// The log filter that gives `level` to each part of the process.
pub open spec fn targets(level: Seq<char>) -> Seq<char> {
    "vector="@ + level + ",codec="@ + level + ",file_source="@ + level
        + ",tower_limit=trace,rdkafka="@ + level
}

/// The log filter of the process: what the environment asks for, where it
/// asks; else nothing where the command line turns logging off, and the level
/// of the command line for each part of the process where it does not.
pub open spec fn filter(env_level: Option<Seq<char>>, cli_level: Seq<char>) -> Seq<char> {
    match env_level {
        Some(level) => level,
        None => if cli_level == "off"@ {
            "off"@
        } else {
            targets(cli_level)
        },
    }
}

/// Whether the log output is coloured: as the option says, and where it
/// leaves the choice open, on a terminal only.
pub open spec fn coloured(color: Color, tty: bool) -> bool {
    match color {
        Color::Auto => tty,
        Color::Always => true,
        Color::Never => false,
    }
}

/// The log filter of the process, from the level that the environment asks
/// for, if any, and the level of the command line.
pub fn log_filter(env_level: Option<String>, cli_level: &str) -> (r: String)
    ensures
        r@ == filter(
            match env_level {
                Some(level) => Some(level@),
                None => None,
            },
            cli_level@,
        ),
{
    match env_level {
        Some(level) => level,
        None => {
            let level = String::from_str(cli_level);
            let off = String::from_str("off");
            if level == off {
                off
            } else {
                let mut out = String::from_str("vector=");
                out.append(cli_level);
                out.append(",codec=");
                out.append(cli_level);
                out.append(",file_source=");
                out.append(cli_level);
                out.append(",tower_limit=trace,rdkafka=");
                out.append(cli_level);
                out
            }
        },
    }
}

/// Whether the log output is coloured, given whether the standard output is a
/// terminal.
pub fn use_color(color: Color, tty: bool) -> (b: bool)
    ensures
        b == coloured(color, tty),
{
    match color {
        Color::Auto => tty,
        Color::Always => true,
        Color::Never => false,
    }
}

/// Whether the log output is coloured on this process's standard output.
pub fn color_enabled(color: Color) -> (b: bool)
    ensures
        color == Color::Always ==> b,
        color == Color::Never ==> !b,
        exists|tty: bool| b == coloured(color, tty),
{
    let b = match color {
        Color::Auto => use_color(color, stdout_is_tty()),
        Color::Always => true,
        Color::Never => false,
    };
    assert(b == coloured(color, b));
    b
}

/// Whether the log output is JSON.
pub fn use_json(format: LogFormat) -> (b: bool)
    ensures
        b == (format == LogFormat::Json),
{
    match format {
        LogFormat::Text => false,
        LogFormat::Json => true,
    }
}

} // verus!
