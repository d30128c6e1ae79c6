//! The log functions that the bot's Lua scripts call: each joins its
//! arguments into one line and logs it at its level.

use vstd::prelude::*;

verus! {

/// The level a line is logged at.
#[derive(Clone, Copy, Debug, PartialEq, Eq, Structural)]
pub enum LogLevel {
    /// An error.
    Error,
    /// A warning.
    Warn,
    /// Information.
    Info,
    /// Debugging detail.
    Debug,
}

/// A line to log, with its level.
#[derive(Debug)]
pub struct LogEntry {
    /// The level to log at.
    pub level: LogLevel,
    /// The line.
    pub text: String,
}

/// The pieces written one after another, with nothing between them.
pub open spec fn concat_pieces(pieces: Seq<Seq<char>>) -> Seq<char>
    decreases pieces.len(),
{
    if pieces.len() == 0 {
        Seq::empty()
    } else {
        concat_pieces(pieces.drop_last()) + pieces.last()
    }
}

/// The text of each string, in order.
pub open spec fn texts(strings: Seq<String>) -> Seq<Seq<char>> {
    strings.map_values(|s: String| s@)
}

/// The strings joined with nothing between them.
pub fn join_strings(strings: &[String]) -> (joined: String)
    ensures
        joined@ == concat_pieces(texts(strings@)),
{
    let mut joined = String::new();
    let n = strings.len();
    let mut i: usize = 0;
    while i < n
        invariant
            n == strings@.len(),
            i <= n,
            joined@ == concat_pieces(texts(strings@).take(i as int)),
        decreases n - i,
    {
        joined.append(strings[i].as_str());
        proof {
            assert(texts(strings@).take(i + 1).drop_last() =~= texts(strings@).take(i as int));
        }
        i = i + 1;
    }
    proof {
        assert(texts(strings@).take(n as int) =~= texts(strings@));
    }
    joined
}

/// The line that Lua's `info` (and `print`) logs: the arguments joined, at
/// level `Info`.
pub fn lua_info(strings: &[String]) -> (entry: LogEntry)
    ensures
        entry.level == LogLevel::Info,
        entry.text@ == concat_pieces(texts(strings@)),
{
    LogEntry { level: LogLevel::Info, text: join_strings(strings) }
}

/// The line that Lua's `warn` logs: the arguments joined, at level `Warn`.
pub fn lua_warn(strings: &[String]) -> (entry: LogEntry)
    ensures
        entry.level == LogLevel::Warn,
        entry.text@ == concat_pieces(texts(strings@)),
{
    LogEntry { level: LogLevel::Warn, text: join_strings(strings) }
}

/// The line that Lua's `error` logs: the arguments joined, at level `Error`.
pub fn lua_error(strings: &[String]) -> (entry: LogEntry)
    ensures
        entry.level == LogLevel::Error,
        entry.text@ == concat_pieces(texts(strings@)),
{
    LogEntry { level: LogLevel::Error, text: join_strings(strings) }
}

/// The line that Lua's `debug` logs: the arguments joined, at level `Debug`.
pub fn lua_debug(strings: &[String]) -> (entry: LogEntry)
    ensures
        entry.level == LogLevel::Debug,
        entry.text@ == concat_pieces(texts(strings@)),
{
    LogEntry { level: LogLevel::Debug, text: join_strings(strings) }
}

} // verus!
