//! The rules of the log: which records pass the level filter, how a record is
//! written, how log files are named and when they are rotated, and what the
//! caller is told when setting the log up failed.
//!
//! Files, the clock and the process-wide logger belong to the host. It reports
//! what they did, and the decisions are made here.

use crate::text::{decimal, decimal_text, join};
use vstd::prelude::*;
use vstd::string::StringExecFns;

verus! {

/// Size above which a log file is rotated unless another limit is set: 5 MiB.
pub const DEFAULT_MAX_FILE_SIZE: u64 = 5 * 1024 * 1024;

/// Severity of one log record, most severe first.
#[derive(Clone, Copy, Debug, PartialEq, Eq, Structural)]
pub enum Level {
    Error,
    Warn,
    Info,
    Debug,
    Trace,
}

/// The least severe level that a log lets through, or `Off` for none.
#[derive(Clone, Copy, Debug, PartialEq, Eq, Structural)]
pub enum LevelFilter {
    Off,
    Error,
    Warn,
    Info,
    Debug,
    Trace,
}

impl Level {
    /// Position of the level, from 1 for the most severe.
    pub open spec fn rank(self) -> nat {
        match self {
            Level::Error => 1,
            Level::Warn => 2,
            Level::Info => 3,
            Level::Debug => 4,
            Level::Trace => 5,
        }
    }

    /// The label of the level in a written record, padded to five characters.
    pub open spec fn label(self) -> Seq<char> {
        match self {
            Level::Error => "ERROR"@,
            Level::Warn => "WARN "@,
            Level::Info => "INFO "@,
            Level::Debug => "DEBUG"@,
            Level::Trace => "TRACE"@,
        }
    }
}

impl LevelFilter {
    /// Position of the filter: 0 lets nothing through, 5 everything.
    pub open spec fn rank(self) -> nat {
        match self {
            LevelFilter::Off => 0,
            LevelFilter::Error => 1,
            LevelFilter::Warn => 2,
            LevelFilter::Info => 3,
            LevelFilter::Debug => 4,
            LevelFilter::Trace => 5,
        }
    }
}

/// The filter that is used where the caller names none: `Info`.
pub open spec fn effective_level(level: Option<LevelFilter>) -> LevelFilter {
    match level {
        Some(chosen) => chosen,
        None => LevelFilter::Info,
    }
}

/// The filter to use for a request that may name none.
pub fn resolve_level(level: Option<LevelFilter>) -> (filter: LevelFilter)
    ensures
        filter == effective_level(level),
{
    match level {
        Some(chosen) => chosen,
        None => LevelFilter::Info,
    }
}

/// Position of a level, from 1 for the most severe.
fn level_rank(level: Level) -> (rank: u8)
    ensures
        rank == level.rank(),
{
    match level {
        Level::Error => 1,
        Level::Warn => 2,
        Level::Info => 3,
        Level::Debug => 4,
        Level::Trace => 5,
    }
}

/// Position of a filter, from 0 for `Off`.
fn filter_rank(filter: LevelFilter) -> (rank: u8)
    ensures
        rank == filter.rank(),
{
    match filter {
        LevelFilter::Off => 0,
        LevelFilter::Error => 1,
        LevelFilter::Warn => 2,
        LevelFilter::Info => 3,
        LevelFilter::Debug => 4,
        LevelFilter::Trace => 5,
    }
}

/// Whether a record of severity `level` passes `filter`: it does when it is at
/// least as severe as the filter asks.
pub fn enabled(level: Level, filter: LevelFilter) -> (passes: bool)
    ensures
        passes == (level.rank() <= filter.rank()),
{
    level_rank(level) <= filter_rank(filter)
}

/// Whether a log file of `size` bytes is to be replaced by a new one: only
/// when it has grown beyond `max_file_size`.
pub fn needs_rotation(size: u64, max_file_size: u64) -> (rotate: bool)
    ensures
        rotate == (size > max_file_size),
{
    size > max_file_size
}

/// The name of the log file that is opened at `timestamp`, in seconds since
/// the epoch.
pub open spec fn file_name_of(timestamp: u64) -> Seq<char> {
    "gamepad-mouse-control-"@ + decimal(timestamp as nat) + ".log"@
}

/// The name of the log file that is opened at `timestamp`.
pub fn log_file_name(timestamp: u64) -> (name: String)
    ensures
        name@ == file_name_of(timestamp),
{
    let stamp = decimal_text(timestamp);
    "gamepad-mouse-control-".to_owned().concat(stamp.as_str()).concat(".log")
}

/// The label of `level` in a written record.
pub fn level_label(level: Level) -> (label: &'static str)
    ensures
        label@ == level.label(),
{
    match level {
        Level::Error => "ERROR",
        Level::Warn => "WARN ",
        Level::Info => "INFO ",
        Level::Debug => "DEBUG",
        Level::Trace => "TRACE",
    }
}

/// One written record: the time in brackets, the label, the place in brackets
/// and the message, ended by a line break. A record without a file is placed
/// in `unknown`, one without a line on line 0.
pub open spec fn record_line(
    timestamp: Seq<char>,
    level: Level,
    file: Option<Seq<char>>,
    line: Option<u32>,
    message: Seq<char>,
) -> Seq<char> {
    "["@ + timestamp + "] "@ + level.label() + " ["@ + (match file {
        Some(path) => path,
        None => "unknown"@,
    }) + ":"@ + decimal(
        match line {
            Some(number) => number as nat,
            None => 0,
        },
    ) + "] "@ + message + "\n"@
}

/// Writes out one record, with `timestamp` as the host formatted it.
pub fn format_record(
    timestamp: &str,
    level: Level,
    file: Option<&str>,
    line: Option<u32>,
    message: &str,
) -> (text: String)
    ensures
        text@ == record_line(
            timestamp@,
            level,
            match file {
                Some(path) => Some(path@),
                None => None,
            },
            line,
            message@,
        ),
{
    let place = match file {
        Some(path) => path,
        None => "unknown",
    };
    let number: u64 = match line {
        Some(number) => number as u64,
        None => 0,
    };
    let numeral = decimal_text(number);
    "[".to_owned().concat(timestamp).concat("] ").concat(level_label(level)).concat(" [").concat(
        place,
    ).concat(":").concat(numeral.as_str()).concat("] ").concat(message).concat("\n")
}

/// The message for a log file that could not be created, ending in the
/// host's reason.
pub open spec fn creation_failure_of(reason: Seq<char>) -> Seq<char> {
    "无法创建日志文件: "@ + reason
}

/// The message for a logger that could not be installed, ending in the reason
/// that the logging system gave.
pub open spec fn install_failure_of(reason: Seq<char>) -> Seq<char> {
    "无法初始化日志系统: "@ + reason
}

/// Installs the console logger of `simple_logger` as the process-wide logger,
/// letting through what `filter` lets through. Nothing is claimed of the
/// result: the logging system refuses a second logger, so the same call may
/// succeed once and fail afterwards. A refusal comes back as the text of the
/// logging system's error.
#[verifier::external_body]
fn install_console_logger(filter: LevelFilter) -> (installed: Result<(), String>) {
    let level = match filter {
        LevelFilter::Off => log::LevelFilter::Off,
        LevelFilter::Error => log::LevelFilter::Error,
        LevelFilter::Warn => log::LevelFilter::Warn,
        LevelFilter::Info => log::LevelFilter::Info,
        LevelFilter::Debug => log::LevelFilter::Debug,
        LevelFilter::Trace => log::LevelFilter::Trace,
    };
    match simple_logger::SimpleLogger::new().with_level(level).init() {
        Ok(()) => Ok(()),
        Err(error) => Err(error.to_string()),
    }
}

/// What the caller is told after an attempt to install the logger: success, or
/// the message that ends in the logging system's reason.
pub fn install_outcome(installed: Result<(), String>) -> (outcome: Result<(), String>)
    ensures
        match installed {
            Ok(_) => outcome is Ok,
            Err(reason) => outcome matches Err(message) && message@ == install_failure_of(
                reason@,
            ),
        },
{
    match installed {
        Ok(_) => Ok(()),
        Err(reason) => Err(join("无法初始化日志系统: ", reason.as_str())),
    }
}

/// Sets up the log with a file, once the host has tried to create the log file
/// and reports in `created` how that went. Where the file could not be
/// created, no logger is installed and the message ends in the host's reason.
/// Where it could, the console logger is installed with the filter that
/// `level` asks for, `Info` if it asks for none; a refusal of the logging
/// system comes back as a message that ends in its reason.
pub fn initialize_enhanced_logging(level: Option<LevelFilter>, created: Result<(), String>) -> (outcome:
    Result<(), String>)
    ensures
        created matches Err(reason) ==> outcome matches Err(message) && message@
            == creation_failure_of(reason@),
        created is Ok ==> (outcome matches Err(message) ==> exists|reason: Seq<char>|
            message@ == install_failure_of(reason)),
{
    match created {
        Ok(_) => {
            let installed = install_console_logger(resolve_level(level));
            install_outcome(installed)
        },
        Err(reason) => Err(join("无法创建日志文件: ", reason.as_str())),
    }
}

/// Sets up the plain console log with the filter that `level` asks for, `Info`
/// if it asks for none. A refusal of the logging system comes back as a
/// message that ends in its reason.
pub fn initialize_simple_logging(level: Option<LevelFilter>) -> (outcome: Result<(), String>)
    ensures
        outcome matches Err(message) ==> exists|reason: Seq<char>|
            message@ == install_failure_of(reason),
{
    let installed = install_console_logger(resolve_level(level));
    install_outcome(installed)
}

} // verus!
