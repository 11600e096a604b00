//! The append-only log sink: severities, entries, and the logger that
//! collects them.

use vstd::prelude::*;

verus! {

/// How serious a log entry is.  The numeric values travel on the wire
/// inside `TransmitLogs` payloads.
#[allow(non_camel_case_types)]
#[derive(PartialEq, Eq, Structural, Debug, Clone, Copy)]
pub enum Severity {
    ALL,
    VERBOSE,
    DEBUG,
    INFO,
    WARNING,
    ERROR,
}

/// The severity a wire value names.  Only 1 through 5 name one: remote
/// peers may not log at the catch-all level, so 0 is rejected like any
/// other unknown value.
pub open spec fn spec_severity_of(value: u64) -> Option<Severity> {
    if value == 1 {
        Some(Severity::VERBOSE)
    } else if value == 2 {
        Some(Severity::DEBUG)
    } else if value == 3 {
        Some(Severity::INFO)
    } else if value == 4 {
        Some(Severity::WARNING)
    } else if value == 5 {
        Some(Severity::ERROR)
    } else {
        None
    }
}

impl Severity {
    /// The numeric value of the severity.
    pub open spec fn spec_value(&self) -> u8 {
        match self {
            Severity::ALL => 0,
            Severity::VERBOSE => 1,
            Severity::DEBUG => 2,
            Severity::INFO => 3,
            Severity::WARNING => 4,
            Severity::ERROR => 5,
        }
    }

    /// The numeric value of the severity.
    pub fn value(&self) -> (r: u8)
        ensures
            r == self.spec_value(),
    {
        match self {
            Severity::ALL => 0,
            Severity::VERBOSE => 1,
            Severity::DEBUG => 2,
            Severity::INFO => 3,
            Severity::WARNING => 4,
            Severity::ERROR => 5,
        }
    }

    /// The severity a wire value names; see [`spec_severity_of`].
    pub fn from_value(value: u64) -> (r: Option<Severity>)
        ensures
            r == spec_severity_of(value),
    {
        if value == 1 {
            Some(Severity::VERBOSE)
        } else if value == 2 {
            Some(Severity::DEBUG)
        } else if value == 3 {
            Some(Severity::INFO)
        } else if value == 4 {
            Some(Severity::WARNING)
        } else if value == 5 {
            Some(Severity::ERROR)
        } else {
            None
        }
    }
}

/// One log entry: a severity and its message text.
#[derive(PartialEq, Eq, Debug, Clone)]
pub struct Log {
    pub severity: Severity,
    pub msg: String,
}

/// An append-only collection of log entries.
#[derive(Debug)]
pub struct Logger {
    pub logs: Vec<Log>,
}

impl Logger {
    /// An empty logger.
    pub fn new() -> (r: Logger)
        ensures
            r.logs@.len() == 0,
    {
        Logger { logs: Vec::new() }
    }

    /// Appends one entry; everything already logged stays in place.
    pub fn log(&mut self, severity: Severity, msg: &str)
        ensures
            final(self).logs@.len() == old(self).logs@.len() + 1,
            final(self).logs@.subrange(0, old(self).logs@.len() as int) == old(self).logs@,
            final(self).logs@.last().severity == severity,
            final(self).logs@.last().msg@ == msg@,
    {
        self.logs.push(Log { severity, msg: msg.to_owned() });
        proof {
            assert(self.logs@.subrange(0, old(self).logs@.len() as int) =~= old(self).logs@);
        }
    }

    /// Every entry logged so far, oldest first.
    pub fn get_logs(&self) -> (r: &Vec<Log>)
        ensures
            r@ == self.logs@,
    {
        &self.logs
    }
}

} // verus!
