//! The writer's decisions: it formats each record into a bounded buffer,
//! asks for the buffer to be sent, and asks for a new transport when a send
//! fails or none is held. The caller performs what it asks for under one
//! lock and reports the outcome back.
use vstd::prelude::*;
use vstd::string::*;
use vstd::utf8::*;

use crate::bounded::{bounded, MaxByteWriter};
use crate::format::{lemma_utc_stamp_bytes, utc_stamp_bytes, utc_timestamp, Formatter5424};
use crate::sdata::SdElement;
use crate::priority::{
    default_severity, filter_rank, level_rank, Level, LevelFilter, LevelToSeverity,
};

verus! {

broadcast use {vstd::utf8::group_utf8_lib, vstd::string::group_string_axioms};

/// What happens to a record whose line does not fit the buffer.
#[derive(Clone, Copy, Debug, PartialEq, Eq, Structural)]
pub enum BufferWriteErrorStrategy {
    /// Send the line cut to the buffer's capacity.
    Ignore,
    /// Drop the record and report the overflow.
    Fail,
}

/// How a new transport is had after a failure.
#[derive(Clone, Copy, Debug, PartialEq, Eq, Structural)]
pub enum ReconnectStrategy {
    /// Connect again to the address of the previous transport.
    AcquireSame,
    /// Do not connect again: the error stands.
    GiveUp,
}

/// What the caller is to do next.
#[derive(Clone, Copy, Debug, PartialEq, Eq, Structural)]
pub enum Action {
    /// Send the buffer over the transport and report with `on_send`.
    Send,
    /// Obtain a new transport with the reconnection strategy and report
    /// with `on_reconnect`.
    Reconnect,
    /// Nothing more for this record.
    Done,
}

/// Why a record was not sent.
#[derive(Clone, Copy, Debug, PartialEq, Eq, Structural)]
pub enum WriteError {
    /// The line did not fit the buffer and the strategy is `Fail`.
    BufferOverflow,
}

/// Why a flush cannot be made.
#[derive(Clone, Copy, Debug, PartialEq, Eq, Structural)]
pub enum FlushError {
    /// No transport is held.
    NotConnected,
}

/// The state of a writer between two calls.
pub struct Session {
    /// Whether a transport is held.
    pub connected: bool,
    /// What the caller is to do next.
    pub pending: Action,
    /// Whether the pending reconnection comes before the record's send.
    pub before_send: bool,
    /// The bytes of the record in flight.
    pub buffer: Seq<u8>,
}

/// The session once the line of a new record is in the buffer. A line that
/// does not fit under `Fail` is dropped. Without a transport, the record first
/// waits for a reconnection, or is lost at once if the strategy gives up.
pub open spec fn prepared(
    s: Session,
    line: Seq<u8>,
    max_bytes: nat,
    overflow: BufferWriteErrorStrategy,
    strategy: ReconnectStrategy,
) -> Session {
    if line.len() > max_bytes && overflow == BufferWriteErrorStrategy::Fail {
        Session { connected: s.connected, pending: Action::Done, before_send: false, buffer: seq![] }
    } else if s.connected {
        Session {
            connected: true,
            pending: Action::Send,
            before_send: false,
            buffer: bounded(line, max_bytes),
        }
    } else if strategy == ReconnectStrategy::AcquireSame {
        Session {
            connected: false,
            pending: Action::Reconnect,
            before_send: true,
            buffer: bounded(line, max_bytes),
        }
    } else {
        Session { connected: false, pending: Action::Done, before_send: false, buffer: seq![] }
    }
}

/// The session after a reconnection that succeeded (`ok`) or failed. Before
/// a send, success leads to the send; failure counts as a failed send, which
/// asks for one more reconnection. After a failed send, the record is over
/// either way.
pub open spec fn reconnected(s: Session, ok: bool) -> Session {
    if s.pending != Action::Reconnect {
        s
    } else if s.before_send && ok {
        Session { connected: true, pending: Action::Send, before_send: false, buffer: s.buffer }
    } else if s.before_send {
        Session { connected: false, pending: Action::Reconnect, before_send: false, buffer: seq![] }
    } else {
        Session { connected: ok, pending: Action::Done, before_send: false, buffer: seq![] }
    }
}

/// The session after a send that succeeded (`ok`) or failed. The buffer is
/// cleared either way; the record is not sent again. A failure drops the
/// transport and asks for one reconnection unless the strategy gives up.
pub open spec fn sent(s: Session, ok: bool, strategy: ReconnectStrategy) -> Session {
    if s.pending != Action::Send {
        s
    } else if ok {
        Session { connected: true, pending: Action::Done, before_send: false, buffer: seq![] }
    } else if strategy == ReconnectStrategy::AcquireSame {
        Session { connected: false, pending: Action::Reconnect, before_send: false, buffer: seq![] }
    } else {
        Session { connected: false, pending: Action::Done, before_send: false, buffer: seq![] }
    }
}

/// Formats records into a bounded buffer and decides when to send them and
/// when to reconnect.
pub struct LogWriter {
    formatter: Formatter5424,
    level_to_severity: LevelToSeverity,
    max_bytes: usize,
    max_log_level: LevelFilter,
    overflow: BufferWriteErrorStrategy,
    reconnect: ReconnectStrategy,
    connected: bool,
    pending: Action,
    before_send: bool,
    buffer: Vec<u8>,
}

impl View for LogWriter {
    type V = Session;

    closed spec fn view(&self) -> Session {
        Session {
            connected: self.connected,
            pending: self.pending,
            before_send: self.before_send,
            buffer: self.buffer@,
        }
    }
}

impl LogWriter {
    /// The formatter of the lines.
    pub closed spec fn spec_formatter(&self) -> Formatter5424 {
        self.formatter
    }

    /// The mapping from levels to severities.
    pub closed spec fn spec_level_to_severity(&self) -> LevelToSeverity {
        self.level_to_severity
    }

    /// The capacity of the buffer.
    pub closed spec fn spec_max_bytes(&self) -> nat {
        self.max_bytes as nat
    }

    /// The most verbose level let through.
    pub closed spec fn spec_max_log_level(&self) -> LevelFilter {
        self.max_log_level
    }

    /// What is done with a line that does not fit.
    pub closed spec fn spec_overflow(&self) -> BufferWriteErrorStrategy {
        self.overflow
    }

    /// How a new transport is had.
    pub closed spec fn spec_reconnect(&self) -> ReconnectStrategy {
        self.reconnect
    }

    /// The writer's invariant: the buffer holds valid UTF-8 within the
    /// capacity, and is empty unless a record waits to be sent.
    pub closed spec fn wf(&self) -> bool {
        &&& self.buffer@.len() <= self.max_bytes
        &&& valid_utf8(self.buffer@)
        &&& (self.before_send ==> self.pending == Action::Reconnect)
        &&& (self.pending == Action::Reconnect ==> self.reconnect == ReconnectStrategy::AcquireSame)
        &&& (self.pending == Action::Done ==> self.buffer@.len() == 0)
        &&& (self.pending == Action::Reconnect && !self.before_send ==> self.buffer@.len() == 0)
    }

    /// What the invariant tells a caller: the buffer is valid UTF-8 within
    /// the capacity; it is empty once a record is over (pending `Done`) and
    /// while a reconnection after a failed send is pending; a pending
    /// reconnection means the strategy reconnects.
    pub proof fn lemma_wf(&self)
        requires
            self.wf(),
        ensures
            self@.buffer.len() <= self.spec_max_bytes(),
            valid_utf8(self@.buffer),
            self@.pending == Action::Done ==> self@.buffer.len() == 0,
            self@.pending == Action::Reconnect && !self@.before_send ==> self@.buffer.len() == 0,
            self@.before_send ==> self@.pending == Action::Reconnect,
            self@.pending == Action::Reconnect ==> self.spec_reconnect()
                == ReconnectStrategy::AcquireSame,
    {
    }

    /// The line of a record of `level` with `message` and the structured
    /// data `data`, stamped `timestamp`.
    pub open spec fn spec_line(
        &self,
        level: Level,
        timestamp: Seq<u8>,
        data: Seq<SdElement>,
        message: Seq<u8>,
    ) -> Seq<u8> {
        self.spec_formatter().spec_line(
            self.spec_level_to_severity().spec_map(level),
            timestamp,
            data,
            message,
        )
    }

    /// A writer with nothing in flight. `connected` tells whether a
    /// transport is held from the start.
    pub fn new(
        formatter: Formatter5424,
        level_to_severity: LevelToSeverity,
        max_bytes: usize,
        max_log_level: LevelFilter,
        overflow: BufferWriteErrorStrategy,
        reconnect: ReconnectStrategy,
        connected: bool,
    ) -> (r: Self)
        ensures
            r.wf(),
            r@ == (Session { connected, pending: Action::Done, before_send: false, buffer: seq![] }),
            r.spec_formatter() == formatter,
            r.spec_level_to_severity() == level_to_severity,
            r.spec_max_bytes() == max_bytes,
            r.spec_max_log_level() == max_log_level,
            r.spec_overflow() == overflow,
            r.spec_reconnect() == reconnect,
    {
        let buffer: Vec<u8> = Vec::new();
        LogWriter {
            formatter,
            level_to_severity,
            max_bytes,
            max_log_level,
            overflow,
            reconnect,
            connected,
            pending: Action::Done,
            before_send: false,
            buffer,
        }
    }

    /// Takes a record: clears the buffer, formats the record's line into it
    /// through a [`MaxByteWriter`], and says what to do next. An earlier
    /// record still in flight is abandoned.
    pub fn prepare_at(
        &mut self,
        level: Level,
        timestamp: &str,
        data: &[SdElement],
        message: &str,
    ) -> (r: Result<
        Action,
        WriteError,
    >)
        requires
            old(self).wf(),
        ensures
            final(self).wf(),
            final(self)@ == prepared(
                old(self)@,
                old(self).spec_line(level, timestamp.spec_bytes(), data@, message.spec_bytes()),
                old(self).spec_max_bytes(),
                old(self).spec_overflow(),
                old(self).spec_reconnect(),
            ),
            r == (if old(self).spec_line(level, timestamp.spec_bytes(), data@, message.spec_bytes()).len()
                > old(self).spec_max_bytes() && old(self).spec_overflow()
                == BufferWriteErrorStrategy::Fail {
                Err(WriteError::BufferOverflow)
            } else {
                Ok(final(self)@.pending)
            }),
            final(self).spec_formatter() == old(self).spec_formatter(),
            final(self).spec_level_to_severity() == old(self).spec_level_to_severity(),
            final(self).spec_max_bytes() == old(self).spec_max_bytes(),
            final(self).spec_max_log_level() == old(self).spec_max_log_level(),
            final(self).spec_overflow() == old(self).spec_overflow(),
            final(self).spec_reconnect() == old(self).spec_reconnect(),
    {
        let severity = self.level_to_severity.map(level);
        let ghost line = self.spec_line(level, timestamp.spec_bytes(), data@, message.spec_bytes());
        let mut buffer: Vec<u8> = Vec::new();
        core::mem::swap(&mut buffer, &mut self.buffer);
        buffer.clear();
        let mut sink = MaxByteWriter::new(buffer, self.max_bytes);
        self.formatter.format_at(&mut sink, severity, timestamp, data, message);
        proof {
            self.formatter.lemma_line_valid(
                severity,
                timestamp.spec_bytes(),
                data@,
                message.spec_bytes(),
            );
            crate::bounded::lemma_bounded_within(line, self.max_bytes as nat);
        }
        let truncated = sink.is_truncated();
        self.buffer = sink.into_inner();
        if truncated && self.overflow == BufferWriteErrorStrategy::Fail {
            self.buffer.clear();
            self.pending = Action::Done;
            self.before_send = false;
            return Err(WriteError::BufferOverflow);
        }
        if self.connected {
            self.pending = Action::Send;
            self.before_send = false;
        } else if self.reconnect == ReconnectStrategy::AcquireSame {
            self.pending = Action::Reconnect;
            self.before_send = true;
        } else {
            self.buffer.clear();
            self.pending = Action::Done;
            self.before_send = false;
        }
        Ok(self.pending)
    }

    /// Takes a record stamped with the current time; see
    /// [`LogWriter::prepare_at`].
    pub fn prepare(&mut self, level: Level, data: &[SdElement], message: &str) -> (r: Result<
        Action,
        WriteError,
    >)
        requires
            old(self).wf(),
        ensures
            final(self).wf(),
            exists|timestamp: Seq<u8>|
                {
                    let line = #[trigger] old(self).spec_line(level, timestamp, data@, message.spec_bytes());
                    &&& valid_utf8(timestamp)
                    &&& utc_stamp_bytes(timestamp)
                    &&& final(self)@ == prepared(
                        old(self)@,
                        line,
                        old(self).spec_max_bytes(),
                        old(self).spec_overflow(),
                        old(self).spec_reconnect(),
                    )
                    &&& r == (if line.len() > old(self).spec_max_bytes() && old(self).spec_overflow()
                        == BufferWriteErrorStrategy::Fail {
                        Err(WriteError::BufferOverflow)
                    } else {
                        Ok(final(self)@.pending)
                    })
                },
            final(self).spec_formatter() == old(self).spec_formatter(),
            final(self).spec_level_to_severity() == old(self).spec_level_to_severity(),
            final(self).spec_max_bytes() == old(self).spec_max_bytes(),
            final(self).spec_max_log_level() == old(self).spec_max_log_level(),
            final(self).spec_overflow() == old(self).spec_overflow(),
            final(self).spec_reconnect() == old(self).spec_reconnect(),
    {
        let timestamp = utc_timestamp();
        let stamp = timestamp.as_str();
        proof {
            lemma_utc_stamp_bytes(stamp);
        }
        self.prepare_at(level, stamp, data, message)
    }

    /// Takes the outcome of a reconnection the writer asked for; `ok` tells
    /// whether a new transport is held now. Says what to do next.
    pub fn on_reconnect(&mut self, ok: bool) -> (r: Action)
        requires
            old(self).wf(),
        ensures
            final(self).wf(),
            final(self)@ == reconnected(old(self)@, ok),
            r == final(self)@.pending,
            final(self).spec_formatter() == old(self).spec_formatter(),
            final(self).spec_level_to_severity() == old(self).spec_level_to_severity(),
            final(self).spec_max_bytes() == old(self).spec_max_bytes(),
            final(self).spec_max_log_level() == old(self).spec_max_log_level(),
            final(self).spec_overflow() == old(self).spec_overflow(),
            final(self).spec_reconnect() == old(self).spec_reconnect(),
    {
        if self.pending != Action::Reconnect {
            return self.pending;
        }
        if self.before_send && ok {
            self.connected = true;
            self.pending = Action::Send;
        } else if self.before_send {
            // the send fails at once without a transport, and asks for one
            // more reconnection
            self.connected = false;
            self.buffer.clear();
            self.pending = Action::Reconnect;
        } else {
            self.connected = ok;
            self.buffer.clear();
            self.pending = Action::Done;
        }
        self.before_send = false;
        self.pending
    }

    /// Takes the outcome of a send the writer asked for; `ok` tells whether
    /// it succeeded. Says what to do next.
    pub fn on_send(&mut self, ok: bool) -> (r: Action)
        requires
            old(self).wf(),
        ensures
            final(self).wf(),
            final(self)@ == sent(old(self)@, ok, old(self).spec_reconnect()),
            r == final(self)@.pending,
            final(self).spec_formatter() == old(self).spec_formatter(),
            final(self).spec_level_to_severity() == old(self).spec_level_to_severity(),
            final(self).spec_max_bytes() == old(self).spec_max_bytes(),
            final(self).spec_max_log_level() == old(self).spec_max_log_level(),
            final(self).spec_overflow() == old(self).spec_overflow(),
            final(self).spec_reconnect() == old(self).spec_reconnect(),
    {
        if self.pending != Action::Send {
            return self.pending;
        }
        self.buffer.clear();
        self.before_send = false;
        if ok {
            self.connected = true;
            self.pending = Action::Done;
        } else {
            self.connected = false;
            if self.reconnect == ReconnectStrategy::AcquireSame {
                self.pending = Action::Reconnect;
            } else {
                self.pending = Action::Done;
            }
        }
        self.pending
    }

    /// What the caller is to do next.
    pub fn pending(&self) -> (r: Action)
        ensures
            r == self@.pending,
    {
        self.pending
    }

    /// The bytes to send.
    pub fn buffer(&self) -> (r: &[u8])
        ensures
            r@ == self@.buffer,
    {
        self.buffer.as_slice()
    }

    /// Whether a transport is held.
    pub fn is_connected(&self) -> (r: bool)
        ensures
            r == self@.connected,
    {
        self.connected
    }

    /// Whether a flush may go to the transport: only when one is held.
    pub fn flush(&self) -> (r: Result<(), FlushError>)
        ensures
            r == (if self@.connected {
                Ok(())
            } else {
                Err(FlushError::NotConnected)
            }),
    {
        if self.connected {
            Ok(())
        } else {
            Err(FlushError::NotConnected)
        }
    }

    /// The most verbose level this writer takes.
    pub fn max_log_level(&self) -> (r: LevelFilter)
        ensures
            r == self.spec_max_log_level(),
    {
        self.max_log_level
    }

    /// Whether a record of `level` is to reach this writer.
    pub fn enabled(&self, level: Level) -> (r: bool)
        ensures
            r == (level_rank(level) <= filter_rank(self.spec_max_log_level())),
    {
        self.max_log_level.allows(level)
    }
}

/// Collects a [`LogWriter`]'s settings.
#[derive(Clone, Copy, Debug)]
pub struct Builder {
    pub level_to_severity: LevelToSeverity,
    /// The buffer's capacity; `None` bounds it only by `usize::MAX`.
    pub max_bytes: Option<usize>,
    pub max_log_level: LevelFilter,
}

impl Default for Builder {
    fn default() -> (r: Self)
        ensures
            forall|level: Level| r.level_to_severity.spec_map(level) == default_severity(level),
            r.max_bytes == None::<usize>,
            r.max_log_level == LevelFilter::Info,
    {
        Builder {
            level_to_severity: LevelToSeverity::default_mapping(),
            max_bytes: None,
            max_log_level: LevelFilter::Info,
        }
    }
}

impl Builder {
    /// The default settings: the default level mapping, no capacity of its
    /// own, records up to `Info`.
    pub fn new() -> (r: Self)
        ensures
            forall|level: Level| r.level_to_severity.spec_map(level) == default_severity(level),
            r.max_bytes == None::<usize>,
            r.max_log_level == LevelFilter::Info,
    {
        Self::default()
    }

    pub fn level_to_severity(self, level_to_severity: LevelToSeverity) -> (r: Self)
        ensures
            r == (Builder { level_to_severity, ..self }),
    {
        Builder { level_to_severity, ..self }
    }

    pub fn max_bytes(self, max_bytes: Option<usize>) -> (r: Self)
        ensures
            r == (Builder { max_bytes, ..self }),
    {
        Builder { max_bytes, ..self }
    }

    pub fn max_log_level(self, max_log_level: LevelFilter) -> (r: Self)
        ensures
            r == (Builder { max_log_level, ..self }),
    {
        Builder { max_log_level, ..self }
    }

    /// A writer with these settings, formatting with `formatter`.
    pub fn build(
        self,
        formatter: Formatter5424,
        overflow: BufferWriteErrorStrategy,
        reconnect: ReconnectStrategy,
        connected: bool,
    ) -> (r: LogWriter)
        ensures
            r.wf(),
            r@ == (Session { connected, pending: Action::Done, before_send: false, buffer: seq![] }),
            r.spec_formatter() == formatter,
            r.spec_level_to_severity() == self.level_to_severity,
            r.spec_max_bytes() == (match self.max_bytes {
                Some(m) => m as nat,
                None => usize::MAX as nat,
            }),
            r.spec_max_log_level() == self.max_log_level,
            r.spec_overflow() == overflow,
            r.spec_reconnect() == reconnect,
    {
        let max_bytes = match self.max_bytes {
            Some(m) => m,
            None => usize::MAX,
        };
        LogWriter::new(
            formatter,
            self.level_to_severity,
            max_bytes,
            self.max_log_level,
            overflow,
            reconnect,
            connected,
        )
    }
}

/// Each send attempt, whatever its outcome, leaves the buffer empty; and the
/// buffer after taking a record does not depend on what it held before.
pub proof fn lemma_buffer_cleared(
    s: Session,
    t: Session,
    ok: bool,
    strategy: ReconnectStrategy,
    line: Seq<u8>,
    max_bytes: nat,
    overflow: BufferWriteErrorStrategy,
)
    requires
        s.pending == Action::Send,
        t.connected == s.connected,
    ensures
        sent(s, ok, strategy).buffer.len() == 0,
        prepared(s, line, max_bytes, overflow, strategy).buffer == prepared(
            t,
            line,
            max_bytes,
            overflow,
            strategy,
        ).buffer,
        prepared(s, line, max_bytes, overflow, strategy).buffer.len() <= max_bytes,
{
    crate::bounded::lemma_bounded_within(line, max_bytes);
}

/// The session after the caller performs the pending action with outcome
/// `ok` and reports it.
pub open spec fn advance(s: Session, ok: bool, strategy: ReconnectStrategy) -> Session {
    match s.pending {
        Action::Send => sent(s, ok, strategy),
        Action::Reconnect => reconnected(s, ok),
        Action::Done => s,
    }
}

/// Whatever the outcomes of the sends and reconnections, a record is over
/// after at most three actions, and then the buffer is empty. A line that
/// overflows under `Fail` ends at once, asks for no action and leaves the
/// transport as it was.
pub proof fn lemma_record_ends_empty(
    s: Session,
    line: Seq<u8>,
    max_bytes: nat,
    overflow: BufferWriteErrorStrategy,
    strategy: ReconnectStrategy,
    ok1: bool,
    ok2: bool,
    ok3: bool,
)
    ensures
        ({
            let p = prepared(s, line, max_bytes, overflow, strategy);
            let end = advance(advance(advance(p, ok1, strategy), ok2, strategy), ok3, strategy);
            &&& end.pending == Action::Done
            &&& end.buffer.len() == 0
            &&& (line.len() > max_bytes && overflow == BufferWriteErrorStrategy::Fail) ==> {
                &&& p.pending == Action::Done
                &&& p.connected == s.connected
                &&& p.buffer.len() == 0
            }
        }),
{
}

/// With the `AcquireSame` strategy, a failed send asks for exactly one
/// reconnection and then ends the record, whatever its outcome; once the
/// reconnection succeeds, the next record that is not rejected for overflow
/// goes straight to a send of its line.
pub proof fn lemma_reconnect_after_failed_send(
    s: Session,
    line: Seq<u8>,
    max_bytes: nat,
    overflow: BufferWriteErrorStrategy,
)
    requires
        s.pending == Action::Send,
    ensures
        ({
            let failed = sent(s, false, ReconnectStrategy::AcquireSame);
            &&& failed.pending == Action::Reconnect
            &&& !failed.connected
            &&& reconnected(failed, false).pending == Action::Done
            &&& !reconnected(failed, false).connected
            &&& reconnected(failed, true).pending == Action::Done
            &&& reconnected(failed, true).connected
            &&& ({
                let next = prepared(
                    reconnected(failed, true),
                    line,
                    max_bytes,
                    overflow,
                    ReconnectStrategy::AcquireSame,
                );
                !(line.len() > max_bytes && overflow == BufferWriteErrorStrategy::Fail) ==> {
                    &&& next.pending == Action::Send
                    &&& next.buffer == crate::bounded::bounded(line, max_bytes)
                    &&& sent(next, true, ReconnectStrategy::AcquireSame).pending == Action::Done
                }
            })
        }),
{
}

} // verus!
