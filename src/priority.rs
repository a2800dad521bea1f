//! Syslog facilities and severities, the application's own log levels, and
//! how they combine into a message's priority.
use vstd::prelude::*;

verus! {

/// The part of the system a message comes from. Each code is the RFC 5424
/// facility number shifted left by three bits.
#[derive(Clone, Copy, Debug, PartialEq, Eq, Structural)]
pub enum Facility {
    Kern,
    User,
    Mail,
    Daemon,
    Auth,
    Syslog,
    Lpr,
    News,
    Uucp,
    Cron,
    Authpriv,
    Ftp,
    Local0,
    Local1,
    Local2,
    Local3,
    Local4,
    Local5,
    Local6,
    Local7,
}

impl Default for Facility {
    /// `Local0`, a facility left to local use.
    fn default() -> (r: Self)
        ensures
            r == Facility::Local0,
    {
        Facility::Local0
    }
}

/// The RFC 5424 number of a facility.
pub open spec fn facility_number(f: Facility) -> u8 {
    match f {
        Facility::Kern => 0,
        Facility::User => 1,
        Facility::Mail => 2,
        Facility::Daemon => 3,
        Facility::Auth => 4,
        Facility::Syslog => 5,
        Facility::Lpr => 6,
        Facility::News => 7,
        Facility::Uucp => 8,
        Facility::Cron => 9,
        Facility::Authpriv => 10,
        Facility::Ftp => 11,
        Facility::Local0 => 16,
        Facility::Local1 => 17,
        Facility::Local2 => 18,
        Facility::Local3 => 19,
        Facility::Local4 => 20,
        Facility::Local5 => 21,
        Facility::Local6 => 22,
        Facility::Local7 => 23,
    }
}

/// A facility's code: its number shifted left by three bits.
pub open spec fn facility_code(f: Facility) -> u8 {
    (facility_number(f) * 8) as u8
}

/// How urgent a message is, from most (`Emerg`) to least (`Debug`) urgent.
#[derive(Clone, Copy, Debug, PartialEq, Eq, Structural)]
pub enum Severity {
    Emerg,
    Alert,
    Crit,
    Error,
    Warning,
    Notice,
    Info,
    Debug,
}

/// The RFC 5424 code of a severity.
pub open spec fn severity_code(s: Severity) -> u8 {
    match s {
        Severity::Emerg => 0,
        Severity::Alert => 1,
        Severity::Crit => 2,
        Severity::Error => 3,
        Severity::Warning => 4,
        Severity::Notice => 5,
        Severity::Info => 6,
        Severity::Debug => 7,
    }
}

impl Facility {
    /// The facility's code, already shifted into place.
    pub fn code(self) -> (r: u8)
        ensures
            r == facility_code(self),
    {
        match self {
            Facility::Kern => 0,
            Facility::User => 8,
            Facility::Mail => 16,
            Facility::Daemon => 24,
            Facility::Auth => 32,
            Facility::Syslog => 40,
            Facility::Lpr => 48,
            Facility::News => 56,
            Facility::Uucp => 64,
            Facility::Cron => 72,
            Facility::Authpriv => 80,
            Facility::Ftp => 88,
            Facility::Local0 => 128,
            Facility::Local1 => 136,
            Facility::Local2 => 144,
            Facility::Local3 => 152,
            Facility::Local4 => 160,
            Facility::Local5 => 168,
            Facility::Local6 => 176,
            Facility::Local7 => 184,
        }
    }
}

impl Severity {
    /// The severity's code.
    pub fn code(self) -> (r: u8)
        ensures
            r == severity_code(self),
    {
        match self {
            Severity::Emerg => 0,
            Severity::Alert => 1,
            Severity::Crit => 2,
            Severity::Error => 3,
            Severity::Warning => 4,
            Severity::Notice => 5,
            Severity::Info => 6,
            Severity::Debug => 7,
        }
    }
}

/// The priority of a message of `severity` from `facility`.
pub open spec fn priority(severity: Severity, facility: Facility) -> u8 {
    facility_code(facility) | severity_code(severity)
}

/// The priority value: the facility code OR the severity code. As facility
/// codes are multiples of 8 and severity codes below 8, it is also
/// `8 * facility number + severity code`.
pub fn encode_priority(severity: Severity, facility: Facility) -> (r: u8)
    ensures
        r == priority(severity, facility),
        r == facility_number(facility) * 8 + severity_code(severity),
{
    let f = facility.code();
    let s = severity.code();
    proof {
        lemma_or_is_sum(facility_number(facility), s);
    }
    f | s
}

/// For every facility and severity, the priority is the bitwise OR of their
/// codes, which equals `8 * facility number + severity code`.
pub proof fn lemma_priority_encoding(severity: Severity, facility: Facility)
    ensures
        priority(severity, facility) == facility_code(facility) | severity_code(severity),
        priority(severity, facility) as int == facility_number(facility) as int * 8
            + severity_code(severity) as int,
{
    lemma_or_is_sum(facility_number(facility), severity_code(severity));
}

proof fn lemma_or_is_sum(n: u8, s: u8)
    requires
        n < 32,
        s < 8,
    ensures
        ((n * 8) as u8) | s == n * 8 + s,
{
    assert(((n * 8) as u8) | s == n * 8 + s) by (bit_vector)
        requires
            n < 32,
            s < 8,
    ;
}

/// The levels of the application's log records, from most to least severe.
#[derive(Clone, Copy, Debug, PartialEq, Eq, Structural)]
pub enum Level {
    Error,
    Warn,
    Info,
    Debug,
    Trace,
}

/// The most verbose level let through; `Off` lets nothing through.
#[derive(Clone, Copy, Debug, PartialEq, Eq, Structural)]
pub enum LevelFilter {
    Off,
    Error,
    Warn,
    Info,
    Debug,
    Trace,
}

/// The rank of a level: 1 for `Error` up to 5 for `Trace`.
pub open spec fn level_rank(level: Level) -> int {
    match level {
        Level::Error => 1,
        Level::Warn => 2,
        Level::Info => 3,
        Level::Debug => 4,
        Level::Trace => 5,
    }
}

/// The rank of a filter: the rank of the most verbose level it lets
/// through, 0 for `Off`.
pub open spec fn filter_rank(filter: LevelFilter) -> int {
    match filter {
        LevelFilter::Off => 0,
        LevelFilter::Error => 1,
        LevelFilter::Warn => 2,
        LevelFilter::Info => 3,
        LevelFilter::Debug => 4,
        LevelFilter::Trace => 5,
    }
}

impl Level {
    fn rank(self) -> (r: u8)
        ensures
            r == level_rank(self),
    {
        match self {
            Level::Error => 1,
            Level::Warn => 2,
            Level::Info => 3,
            Level::Debug => 4,
            Level::Trace => 5,
        }
    }
}

impl LevelFilter {
    fn rank(self) -> (r: u8)
        ensures
            r == filter_rank(self),
    {
        match self {
            LevelFilter::Off => 0,
            LevelFilter::Error => 1,
            LevelFilter::Warn => 2,
            LevelFilter::Info => 3,
            LevelFilter::Debug => 4,
            LevelFilter::Trace => 5,
        }
    }

    /// Whether a record of `level` passes this filter.
    pub fn allows(self, level: Level) -> (r: bool)
        ensures
            r == (level_rank(level) <= filter_rank(self)),
    {
        level.rank() <= self.rank()
    }
}

/// The default mapping from log levels to syslog severities.
pub open spec fn default_severity(level: Level) -> Severity {
    match level {
        Level::Error => Severity::Error,
        Level::Warn => Severity::Warning,
        Level::Info => Severity::Info,
        Level::Debug | Level::Trace => Severity::Debug,
    }
}

/// A default mapping from [`Level`] to [`Severity`].
pub fn default_level_mapping(level: Level) -> (r: Severity)
    ensures
        r == default_severity(level),
{
    match level {
        Level::Error => Severity::Error,
        Level::Warn => Severity::Warning,
        Level::Info => Severity::Info,
        Level::Debug | Level::Trace => Severity::Debug,
    }
}

/// A total mapping from log levels to syslog severities: one severity for
/// each level.
#[derive(Clone, Copy, Debug, PartialEq, Eq, Structural)]
pub struct LevelToSeverity {
    pub error: Severity,
    pub warn: Severity,
    pub info: Severity,
    pub debug: Severity,
    pub trace: Severity,
}

impl LevelToSeverity {
    /// The severity this mapping gives to `level`.
    pub open spec fn spec_map(&self, level: Level) -> Severity {
        match level {
            Level::Error => self.error,
            Level::Warn => self.warn,
            Level::Info => self.info,
            Level::Debug => self.debug,
            Level::Trace => self.trace,
        }
    }

    /// The mapping of [`default_level_mapping`].
    pub fn default_mapping() -> (r: Self)
        ensures
            forall|level: Level| r.spec_map(level) == default_severity(level),
    {
        LevelToSeverity {
            error: default_level_mapping(Level::Error),
            warn: default_level_mapping(Level::Warn),
            info: default_level_mapping(Level::Info),
            debug: default_level_mapping(Level::Debug),
            trace: default_level_mapping(Level::Trace),
        }
    }

    /// The severity for `level`.
    pub fn map(&self, level: Level) -> (r: Severity)
        ensures
            r == self.spec_map(level),
    {
        match level {
            Level::Error => self.error,
            Level::Warn => self.warn,
            Level::Info => self.info,
            Level::Debug => self.debug,
            Level::Trace => self.trace,
        }
    }
}

} // verus!
