use vstd::prelude::*;

verus! {

/// Severity of a log record, in ascending order of verbosity.
#[derive(Clone, Copy, PartialEq, Eq, Structural, Debug)]
pub enum Severity {
    Error,
    Warn,
    Info,
    Debug,
    Trace,
}

/// The standard textual form of a severity, as it appears at the head of an
/// emitted line.
pub open spec fn severity_label(s: Severity) -> Seq<char> {
    match s {
        Severity::Error => "ERROR"@,
        Severity::Warn => "WARN"@,
        Severity::Info => "INFO"@,
        Severity::Debug => "DEBUG"@,
        Severity::Trace => "TRACE"@,
    }
}

/// The severity threshold that a verbosity count selects: a step function
/// that saturates at `Trace` once the count reaches three.
pub open spec fn threshold_spec(verbose: u8) -> Severity {
    if verbose == 0 {
        Severity::Warn
    } else if verbose == 1 {
        Severity::Info
    } else if verbose == 2 {
        Severity::Debug
    } else {
        Severity::Trace
    }
}

impl Severity {
    /// The uppercase name of this severity.
    pub fn name(&self) -> (r: &'static str)
        ensures
            r@ == severity_label(*self),
    {
        match self {
            Severity::Error => "ERROR",
            Severity::Warn => "WARN",
            Severity::Info => "INFO",
            Severity::Debug => "DEBUG",
            Severity::Trace => "TRACE",
        }
    }

    /// Map a verbosity count to the severity threshold it selects:
    /// 0 allows up to `Warn`, 1 up to `Info`, 2 up to `Debug`, and any
    /// larger count up to `Trace`.
    pub fn for_verbosity(verbose: u8) -> (s: Severity)
        ensures
            s == threshold_spec(verbose),
            verbose == 0 ==> s == Severity::Warn,
            verbose == 1 ==> s == Severity::Info,
            verbose == 2 ==> s == Severity::Debug,
            verbose >= 3 ==> s == Severity::Trace,
    {
        match verbose {
            0 => Severity::Warn,
            1 => Severity::Info,
            2 => Severity::Debug,
            _ => Severity::Trace,
        }
    }
}

} // verus!
