//! This module defines the kernel logger.
//!
//! Log severities route as: `Error`/`Warn`/`Info` go to both sinks, with the
//! serial copy of `Error` and `Warn` records distinguished by ANSI color
//! codes; `Debug` and `Trace` go to the serial line only.

use vstd::prelude::*;

use crate::arch::Architecture;
use crate::arch::x86_64::{serial, x86_64};

verus! {

/// The severity of a log record.
#[derive(Debug, PartialEq, Eq, Structural, Clone, Copy)]
pub enum Level {
    /// A fatal or near-fatal condition.
    Error,
    /// A suspicious condition that does not stop the kernel.
    Warn,
    /// Ordinary progress reporting.
    Info,
    /// Detail useful while developing.
    Debug,
    /// The finest-grained detail.
    Trace,
}

/// The upper-case name of a severity, as it appears in serial records.
pub open spec fn spec_level_name(level: Level) -> Seq<char> {
    match level {
        Level::Error => "ERROR"@,
        Level::Warn => "WARN"@,
        Level::Info => "INFO"@,
        Level::Debug => "DEBUG"@,
        Level::Trace => "TRACE"@,
    }
}

/// The ANSI color code that opens a serial record of this severity.
pub open spec fn spec_level_color(level: Level) -> Seq<char> {
    match level {
        Level::Error => "\x1b[31m"@,  // Red
        Level::Warn => "\x1b[33m"@,  // Yellow
        Level::Info => ""@,
        Level::Debug => ""@,  // Default
        Level::Trace => "\x1b[90m"@,  // Dark gray
    }
}

/// A decorated serial record: color, severity name, color reset, separator,
/// the message, and the terminating line feed.
pub open spec fn spec_decorated_line(level: Level, message: Seq<char>) -> Seq<char> {
    spec_level_color(level) + spec_level_name(level) + "\x1b[0m"@ + ": "@ + message + "\n"@
}

/// Everything a record of this severity appends to the serial line.
pub open spec fn spec_serial_records(level: Level, message: Seq<char>) -> Seq<Seq<char>> {
    match level {
        Level::Error | Level::Warn => seq![message, "\n"@, spec_decorated_line(level, message)],
        Level::Info => seq![message, "\n"@, message + "\n"@],
        Level::Debug | Level::Trace => seq![spec_decorated_line(level, message)],
    }
}

/// Whether a record of this severity also goes to the firmware console.
pub open spec fn spec_reaches_console(level: Level) -> bool {
    match level {
        Level::Error | Level::Warn | Level::Info => true,
        Level::Debug | Level::Trace => false,
    }
}

/// The type of the kernel logger.
pub struct KernelLogger;

impl KernelLogger {
    /// Whether records of this severity are handed on at all.
    pub fn enabled(&self, _level: Level) -> (on: bool)
        ensures
            on,
    {
        true
    }

    /// Routes one log record to the currently valid sinks.
    pub fn log(&self, machine: &mut x86_64, level: Level, message: &str)
        requires
            old(machine).ready(),
        ensures
            final(machine).ready(),
            final(machine).serial_log() == old(machine).serial_log()
                + spec_serial_records(level, message@),
            final(machine).console_log() == (
                if spec_reaches_console(level) && old(machine).console_active() {
                    old(machine).console_log() + seq![message@, "\r\n"@]
                } else {
                    old(machine).console_log()
                }
            ),
            final(machine).console_active() == old(machine).console_active(),
            final(machine).interrupts_on() == old(machine).interrupts_on(),
            final(machine).phase == old(machine).phase,
            final(machine).boot_method == old(machine).boot_method,
    {
        match level {
            Level::Error | Level::Warn => {
                machine.write_fmt(message);
                machine.write_line_break();
                let line = decorated_line(level, message);
                serial::write_fmt(machine, line.as_str());
            },
            Level::Info => {
                machine.write_fmt(message);
                machine.write_line_break();
                let mut line = String::from_str(message);
                line.append("\n");
                serial::write_fmt(machine, line.as_str());
            },
            Level::Debug | Level::Trace => {
                let line = decorated_line(level, message);
                serial::write_fmt(machine, line.as_str());
            },
        }
        proof {
            assert(machine.serial_log() =~= old(machine).serial_log()
                + spec_serial_records(level, message@));
            if spec_reaches_console(level) && old(machine).console_active() {
                assert(machine.console_log() =~= old(machine).console_log()
                    + seq![message@, "\r\n"@]);
            }
        }
    }

    /// Nothing is buffered, so there is nothing to flush.
    pub fn flush(&self) {
    }
}

/// The upper-case name of a severity.
fn level_name(level: Level) -> (name: &'static str)
    ensures
        name@ == spec_level_name(level),
{
    match level {
        Level::Error => "ERROR",
        Level::Warn => "WARN",
        Level::Info => "INFO",
        Level::Debug => "DEBUG",
        Level::Trace => "TRACE",
    }
}

/// The ANSI color code that opens a serial record of this severity.
fn level_color(level: Level) -> (color: &'static str)
    ensures
        color@ == spec_level_color(level),
{
    match level {
        Level::Error => "\x1b[31m",
        Level::Warn => "\x1b[33m",
        Level::Info => "",
        Level::Debug => "",
        Level::Trace => "\x1b[90m",
    }
}

/// Builds the decorated serial record for one message.
fn decorated_line(level: Level, message: &str) -> (line: String)
    ensures
        line@ == spec_decorated_line(level, message@),
{
    let mut line = String::from_str(level_color(level));
    line.append(level_name(level));
    line.append("\x1b[0m");
    line.append(": ");
    line.append(message);
    line.append("\n");
    proof {
        assert(line@ =~= spec_decorated_line(level, message@));
    }
    line
}

} // verus!
