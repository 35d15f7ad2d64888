//! A minimal logging backend: a single global sink that renders leveled log
//! records to single lines and writes them to the standard error stream.
//! The sink does no filtering of its own; it relies on the facade's global
//! maximum-level setting, which [`Logger::init`] derives from a verbosity
//! count.

mod record;
mod severity;

pub use record::LogRecord;
pub use record::decimal_digits;
pub use record::digit_char;
pub use record::format_record;
pub use record::record_line;
pub use severity::Severity;
pub use severity::severity_label;
pub use severity::threshold_spec;

use std::io::Write;
use vstd::prelude::*;

verus! {

/// The simplest possible log sink: it renders each record it is handed to
/// one line on the error stream. It does no filtering of its own; filtering
/// is delegated entirely to the facade's global severity threshold, set by
/// [`Logger::init`].
#[derive(Debug)]
pub struct Logger;

/// The one failure of [`Logger::init`]: a global log handler was already
/// installed when it was called.
#[derive(Clone, Copy, PartialEq, Eq, Structural, Debug)]
pub struct AlreadyInitializedError;

#[verifier::external_type_specification]
#[verifier::external_body]
pub struct ExMetadata<'a>(log::Metadata<'a>);

#[verifier::external_type_specification]
#[verifier::external_body]
pub struct ExRecord<'a>(log::Record<'a>);

#[verifier::external_type_specification]
#[verifier::external_body]
pub struct ExSetLoggerError(log::SetLoggerError);

#[verifier::external_type_specification]
pub struct ExLevel(log::Level);

#[verifier::external_type_specification]
pub struct ExLevelFilter(log::LevelFilter);

/// The library's severity for a level of the facade.
pub open spec fn severity_of_level_spec(level: log::Level) -> Severity {
    match level {
        log::Level::Error => Severity::Error,
        log::Level::Warn => Severity::Warn,
        log::Level::Info => Severity::Info,
        log::Level::Debug => Severity::Debug,
        log::Level::Trace => Severity::Trace,
    }
}

/// The facade's level filter that admits exactly the records at or below a
/// severity threshold.
pub open spec fn filter_of_spec(threshold: Severity) -> log::LevelFilter {
    match threshold {
        Severity::Error => log::LevelFilter::Error,
        Severity::Warn => log::LevelFilter::Warn,
        Severity::Info => log::LevelFilter::Info,
        Severity::Debug => log::LevelFilter::Debug,
        Severity::Trace => log::LevelFilter::Trace,
    }
}

/// Convert a level of the facade to the library's severity.
pub fn severity_of_level(level: log::Level) -> (s: Severity)
    ensures
        s == severity_of_level_spec(level),
{
    match level {
        log::Level::Error => Severity::Error,
        log::Level::Warn => Severity::Warn,
        log::Level::Info => Severity::Info,
        log::Level::Debug => Severity::Debug,
        log::Level::Trace => Severity::Trace,
    }
}

/// Convert a severity threshold to the facade's level filter.
fn filter_of(threshold: Severity) -> (f: log::LevelFilter)
    ensures
        f == filter_of_spec(threshold),
{
    match threshold {
        Severity::Error => log::LevelFilter::Error,
        Severity::Warn => log::LevelFilter::Warn,
        Severity::Info => log::LevelFilter::Info,
        Severity::Debug => log::LevelFilter::Debug,
        Severity::Trace => log::LevelFilter::Trace,
    }
}

/// Relies on log::set_max_level: stores the given filter as the facade's
/// global maximum level, so that more verbose records never reach the sink.
#[verifier::external_body]
fn set_global_max_level(level: log::LevelFilter) {
    log::set_max_level(level);
}

/// Relies on log::set_logger: installs the sink as the process-wide log
/// handler. The slot is claimed atomically and at most once; the call
/// returns an error exactly when a handler was already installed, and never
/// replaces one.
#[verifier::external_body]
fn install_global_logger() -> (r: Result<(), log::SetLoggerError>) {
    log::set_logger(&Logger)
}

/// Relies on std::io::Stderr::write_fmt (through writeln): writes the line
/// and a trailing newline to the error stream as one contiguous call, which
/// the standard library does not buffer. A failed write is ignored: a
/// diagnostic must never fail its caller.
#[verifier::external_body]
fn write_stderr_line(line: &str) {
    let _ = writeln!(std::io::stderr(), "{}", line);
}

impl Logger {
    /// Install the sink as the process-wide log handler and set the
    /// facade's global severity threshold from a verbosity count: 0 allows
    /// up to `Warn`, 1 up to `Info`, 2 up to `Debug`, and any larger count
    /// up to `Trace`.
    ///
    /// Fails with [`AlreadyInitializedError`] exactly when a handler was
    /// already installed; a failed call leaves the threshold untouched.
    pub fn init(verbose: u8) -> (r: Result<(), AlreadyInitializedError>)
        ensures
            r matches Err(e) ==> e == AlreadyInitializedError,
    {
        match install_global_logger() {
            Ok(_) => {
                set_global_max_level(filter_of(Severity::for_verbosity(verbose)));
                Ok(())
            },
            Err(_) => Err(AlreadyInitializedError),
        }
    }

    /// Whether the sink would accept a record with this severity and
    /// target: always. Filtering is centralized in the facade's global
    /// threshold, so the sink never filters on its own.
    pub fn accepts(&self, _severity: Severity, _target: &str) -> (b: bool)
        ensures
            b,
    {
        true
    }

    /// Write one record as one line on the error stream, rendered as
    /// [`record_line`] specifies, then return. Infallible: the caller's
    /// flow never depends on the write having succeeded.
    pub fn emit(&self, rec: &LogRecord) {
        let line = format_record(rec);
        write_stderr_line(line.as_str());
    }

    /// Nothing is ever buffered: every [`Logger::emit`] writes its line
    /// synchronously, so there is no pending data and nothing to do.
    pub fn flush(&self) {
    }
}

impl log::Log for Logger {
    /// Relies on log::Metadata::level and log::Metadata::target to read the
    /// record's attributes; the answer itself comes from the verified
    /// [`Logger::accepts`].
    #[verifier::external_body]
    fn enabled(&self, metadata: &log::Metadata) -> bool {
        self.accepts(severity_of_level(metadata.level()), metadata.target())
    }

    /// Relies on log::Record's accessors to read the severity, target,
    /// message and location; everything past that conversion is the
    /// verified [`Logger::emit`].
    #[verifier::external_body]
    fn log(&self, record: &log::Record) {
        let rec = LogRecord {
            severity: severity_of_level(record.level()),
            target: record.target().to_owned(),
            message: format!("{}", record.args()),
            file: match record.file() {
                Some(f) => Some(f.to_owned()),
                None => None,
            },
            line: record.line(),
        };
        self.emit(&rec);
    }

    /// Nothing is ever buffered, so there is nothing to flush; the verified
    /// [`Logger::flush`] says the same.
    #[verifier::external_body]
    fn flush(&self) {
    }
}

} // verus!
