//! The log: which lines it writes, where they go and what they look like.
//!
//! A log does not write by itself. It says what is to be written to its
//! file and what to the console, and leaves the writing to its caller.

use vstd::prelude::*;
use crate::log_flags::{LogFlags, WRITE_MESSAGE, WRITE_TO_CONSOLE, WRITE_WARNING};

verus! {

/// The kind of a line.
#[derive(Clone, Copy, Debug, PartialEq, Eq, Structural)]
pub enum LogLevel {
    Message,
    Warning,
    Error,
}

/// The colour of a line on the console.
#[derive(Clone, Copy, Debug, PartialEq, Eq, Structural)]
pub enum ConsoleColour {
    Yellow,
    Red,
}

/// A log: the file it writes to and what it writes.
#[derive(Debug, PartialEq, Eq)]
pub struct Log {
    pub output_path: String,
    pub flags: LogFlags,
}

/// A log as a mathematical value.
pub ghost struct LogModel {
    pub output_path: Seq<char>,
    pub flags: LogFlags,
}

impl View for Log {
    type V = LogModel;

    open spec fn view(&self) -> LogModel {
        LogModel { output_path: self.output_path@, flags: self.flags }
    }
}

/// What a call of the log leaves to be written.
#[derive(Debug, PartialEq, Eq)]
pub struct LogRecord {
    /// The line to put at the end of the log file, if any.
    pub file_line: Option<String>,
    /// The text to print on the console, if any.
    pub console_line: Option<String>,
}

/// A record as a mathematical value.
pub ghost struct LogRecordModel {
    pub file_line: Option<Seq<char>>,
    pub console_line: Option<Seq<char>>,
}

impl View for LogRecord {
    type V = LogRecordModel;

    open spec fn view(&self) -> LogRecordModel {
        LogRecordModel {
            file_line: match self.file_line {
                Some(line) => Some(line@),
                None => None,
            },
            console_line: match self.console_line {
                Some(line) => Some(line@),
                None => None,
            },
        }
    }
}

/// The file of a log that writes to the directory `directory`: `Log.md` in
/// that directory, or in the working directory where none is given.
pub open spec fn log_file_path(directory: Seq<char>) -> Seq<char> {
    if directory.len() == 0 {
        "./Log.md"@
    } else {
        directory + "/Log.md"@
    }
}

/// A line of the log: the time in brackets, the prefix of its kind, the
/// message and a line feed.
pub open spec fn output_line(timestamp: Seq<char>, prefix: Seq<char>, message: Seq<char>) -> Seq<
    char,
> {
    "["@ + timestamp + "] "@ + prefix + ": "@ + message + "\n"@
}

/// The prefix of a kind of line.
pub open spec fn level_prefix(level: LogLevel) -> Seq<char> {
    match level {
        LogLevel::Message => "MSG"@,
        LogLevel::Warning => "WARN"@,
        LogLevel::Error => "ERR"@,
    }
}

/// The flag that lets a kind of line be written. Errors are written where
/// warnings are.
pub open spec fn level_flag(level: LogLevel) -> u8 {
    match level {
        LogLevel::Message => WRITE_MESSAGE,
        LogLevel::Warning => WRITE_WARNING,
        LogLevel::Error => WRITE_WARNING,
    }
}

/// The escape sequence that switches the console to bold text of a colour.
pub open spec fn bold_prefix(colour: ConsoleColour) -> Seq<char> {
    match colour {
        ConsoleColour::Yellow => "\x1B[1;33m"@,
        ConsoleColour::Red => "\x1B[1;31m"@,
    }
}

/// A text as the console shows it bold and coloured: between the escape
/// sequence of the colour and the one that resets the console.
pub open spec fn painted(colour: ConsoleColour, text: Seq<char>) -> Seq<char> {
    bold_prefix(colour) + text + "\x1B[0m"@
}

/// A line as it goes to the console: a message plain, a warning in yellow,
/// an error in red.
pub open spec fn console_text(level: LogLevel, line: Seq<char>) -> Seq<char> {
    match level {
        LogLevel::Message => line,
        LogLevel::Warning => painted(ConsoleColour::Yellow, line),
        LogLevel::Error => painted(ConsoleColour::Red, line),
    }
}

/// What a log with the given flags leaves to be written for a line: nothing
/// where the flag of its kind is not set; else the line for the file, and
/// for the console too where the log writes to it.
pub open spec fn record_for(
    flags: LogFlags,
    level: LogLevel,
    timestamp: Seq<char>,
    message: Seq<char>,
) -> LogRecordModel {
    let line = output_line(timestamp, level_prefix(level), message);
    if !flags.has(level_flag(level)) {
        LogRecordModel { file_line: None, console_line: None }
    } else if flags.has(WRITE_TO_CONSOLE) {
        LogRecordModel { file_line: Some(line), console_line: Some(console_text(level, line)) }
    } else {
        LogRecordModel { file_line: Some(line), console_line: None }
    }
}

/// The time of day of this machine: the system time, turned into a local
/// `chrono::DateTime` and formatted with `%T`. The conversion takes a clock
/// that stands before 1970 too.
///
/// Trusted: nothing is claimed of the text.
#[verifier::external_body]
fn get_time() -> (timestamp: String) {
    chrono::DateTime::<chrono::Local>::from(std::time::SystemTime::now()).format("%T").to_string()
}

/// Paints a text bold and in a colour with `ansi_term`: `Colour::bold`,
/// then `Style::paint`, written out as a text.
///
/// Trusted: the result is the text between the escape sequence `ESC [ 1 ;`
/// colour `m`, where yellow is 33 and red is 31, and the reset sequence
/// `ESC [ 0 m`.
#[verifier::external_body]
fn paint_bold(colour: ConsoleColour, text: &str) -> (shown: String)
    ensures
        shown@ == painted(colour, text@),
{
    let colour = match colour {
        ConsoleColour::Yellow => ansi_term::Colour::Yellow,
        ConsoleColour::Red => ansi_term::Colour::Red,
    };
    colour.bold().paint(text).to_string()
}

impl Log {
    /// Sets up the one log of the program in `slot`, which must be empty:
    /// a log that writes everything, to its file and to the console.
    pub fn init(slot: &mut Option<Log>, path_to_write_to: &str)
        requires
            *old(slot) is None,
        ensures
            *final(slot) is Some,
            final(slot)->Some_0@ == (LogModel {
                output_path: log_file_path(path_to_write_to@),
                flags: LogFlags {
                    bits: crate::log_flags::WRITE_ERROR | WRITE_WARNING | WRITE_MESSAGE
                        | WRITE_TO_CONSOLE,
                },
            }),
    {
        let mut output_path = String::new();
        if path_to_write_to.unicode_len() == 0 {
            output_path.append("./Log.md");
        } else {
            output_path.append(path_to_write_to);
            output_path.append("/Log.md");
        }
        assert(output_path@ =~= log_file_path(path_to_write_to@));
        *slot = Some(Log { output_path, flags: LogFlags::all() });
    }

    /// The log that was set up in `slot`.
    pub fn get(slot: &Option<Log>) -> (log: Log)
        requires
            *slot is Some,
        ensures
            log@ == slot->Some_0@,
    {
        match slot {
            Some(log) => Log { output_path: log.output_path.clone(), flags: log.flags },
            None => Log { output_path: String::new(), flags: LogFlags::empty() },
        }
    }

    /// Computes `output_line`.
    pub fn build_output(&self, timestamp: &str, prefix: &str, message: &str) -> (output: String)
        ensures
            output@ == output_line(timestamp@, prefix@, message@),
    {
        let mut output = String::new();
        output.append("[");
        output.append(timestamp);
        output.append("] ");
        output.append(prefix);
        output.append(": ");
        output.append(message);
        output.append("\n");
        assert(output@ =~= output_line(timestamp@, prefix@, message@));
        output
    }

    /// Computes `record_for`: what is to be written for a line of the given
    /// kind, made at the given time.
    pub fn compose(&self, level: LogLevel, timestamp: &str, message: &str) -> (record: LogRecord)
        ensures
            record@ == record_for(self.flags, level, timestamp@, message@),
    {
        let (flag, prefix) = match level {
            LogLevel::Message => (WRITE_MESSAGE, "MSG"),
            LogLevel::Warning => (WRITE_WARNING, "WARN"),
            LogLevel::Error => (WRITE_WARNING, "ERR"),
        };
        if !self.flags.contains(flag) {
            return LogRecord { file_line: None, console_line: None };
        }
        let output = self.build_output(timestamp, prefix, message);
        if !self.flags.contains(WRITE_TO_CONSOLE) {
            return LogRecord { file_line: Some(output), console_line: None };
        }
        let shown = match level {
            LogLevel::Message => output.clone(),
            LogLevel::Warning => paint_bold(ConsoleColour::Yellow, output.as_str()),
            LogLevel::Error => paint_bold(ConsoleColour::Red, output.as_str()),
        };
        LogRecord { file_line: Some(output), console_line: Some(shown) }
    }

    /// What is to be written for a message made now.
    pub fn write(&self, message: &str) -> (record: LogRecord)
        ensures
            exists|timestamp: Seq<char>|
                record@ == #[trigger] record_for(
                    self.flags,
                    LogLevel::Message,
                    timestamp,
                    message@,
                ),
    {
        let timestamp = get_time();
        let record = self.compose(LogLevel::Message, timestamp.as_str(), message);
        assert(record@ == record_for(self.flags, LogLevel::Message, timestamp@, message@));
        record
    }

    /// What is to be written for a warning made now.
    pub fn write_warning(&self, warning: &str) -> (record: LogRecord)
        ensures
            exists|timestamp: Seq<char>|
                record@ == #[trigger] record_for(
                    self.flags,
                    LogLevel::Warning,
                    timestamp,
                    warning@,
                ),
    {
        let timestamp = get_time();
        let record = self.compose(LogLevel::Warning, timestamp.as_str(), warning);
        assert(record@ == record_for(self.flags, LogLevel::Warning, timestamp@, warning@));
        record
    }

    /// What is to be written for an error made now.
    pub fn write_error(&self, error: &str) -> (record: LogRecord)
        ensures
            exists|timestamp: Seq<char>|
                record@ == #[trigger] record_for(self.flags, LogLevel::Error, timestamp, error@),
    {
        let timestamp = get_time();
        let record = self.compose(LogLevel::Error, timestamp.as_str(), error);
        assert(record@ == record_for(self.flags, LogLevel::Error, timestamp@, error@));
        record
    }
}

/// A line that is not written to the file is not written to the console
/// either, and nothing is written for a kind whose flag is not set.
pub proof fn lemma_console_only_with_file(
    flags: LogFlags,
    level: LogLevel,
    timestamp: Seq<char>,
    message: Seq<char>,
)
    ensures
        record_for(flags, level, timestamp, message).console_line is Some ==> record_for(
            flags,
            level,
            timestamp,
            message,
        ).file_line is Some,
        record_for(flags, level, timestamp, message).file_line is Some <==> flags.has(
            level_flag(level),
        ),
        record_for(flags, level, timestamp, message).console_line is Some <==> flags.has(
            level_flag(level),
        ) && flags.has(WRITE_TO_CONSOLE),
{
}

} // verus!
