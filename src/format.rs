//! Renders a syslog message as one RFC 5424 line:
//! `<PRI>1 TIMESTAMP HOSTNAME APP-NAME PROCID MSGID STRUCTURED-DATA MSG`.
use vstd::prelude::*;
use vstd::string::*;
use vstd::utf8::*;

use crate::bounded::{write_step, MaxByteWriter};
use crate::priority::{encode_priority, priority, Facility, Severity};
use crate::sdata::{lemma_sd_field_valid, push_sd_field, sd_field, SdElement};

verus! {

broadcast use {vstd::utf8::group_utf8_lib, vstd::string::group_string_axioms};

/// The ASCII digit for `d < 10`.
pub open spec fn digit(d: nat) -> u8 {
    (48 + d) as u8
}

/// The decimal digits of `n`, most significant first, without leading zeros.
pub open spec fn decimal(n: nat) -> Seq<u8>
    decreases n,
{
    if n < 10 {
        seq![digit(n)]
    } else {
        decimal(n / 10) + seq![digit(n % 10)]
    }
}

/// The placeholder of an absent field.
pub open spec fn nil_value() -> Seq<u8> {
    seq![45u8]
}

/// The host name written when none is configured.
pub open spec fn localhost() -> Seq<u8> {
    seq![108u8, 111u8, 99u8, 97u8, 108u8, 104u8, 111u8, 115u8, 116u8]
}

/// The MSGID field this formatter writes.
pub open spec fn msg_id() -> Seq<u8> {
    seq![48u8]
}

/// One line of RFC 5424 syslog, from its fields.
pub open spec fn syslog_line(
    pri: u8,
    timestamp: Seq<u8>,
    host: Seq<u8>,
    app: Seq<u8>,
    proc_id: Seq<u8>,
    sd: Seq<u8>,
    msg: Seq<u8>,
) -> Seq<u8> {
    seq![60u8] + decimal(pri as nat) + seq![62u8, 49u8, 32u8] + timestamp + seq![32u8] + host
        + seq![32u8] + app + seq![32u8] + proc_id + seq![32u8] + msg_id() + seq![32u8] + sd
        + seq![32u8] + msg
}

/// Every byte below 0x80 makes valid UTF-8.
pub proof fn lemma_ascii_valid_utf8(bytes: Seq<u8>)
    requires
        forall|i: int| 0 <= i < bytes.len() ==> #[trigger] bytes[i] < 0x80,
    ensures
        valid_utf8(bytes),
{
    assert forall|i: int| 0 <= i < bytes.len() implies #[trigger] is_leading_byte_width_1(
        bytes[i],
    ) by {}
    partial_valid_utf8_extend_ascii_block(bytes, 0, bytes.len() as int);
    assert(bytes.subrange(0, bytes.len() as int) =~= bytes);
}

proof fn lemma_decimal_ascii(n: nat)
    ensures
        forall|i: int| 0 <= i < decimal(n).len() ==> #[trigger] decimal(n)[i] < 0x80,
        decimal(n).len() >= 1,
    decreases n,
{
    if n >= 10 {
        lemma_decimal_ascii(n / 10);
    }
}

/// Appends the decimal digits of `n` to `out`.
fn push_decimal(out: &mut Vec<u8>, n: u32)
    ensures
        final(out)@ == old(out)@ + decimal(n as nat),
    decreases n,
{
    if n >= 10 {
        push_decimal(out, n / 10);
    }
    let d: u8 = (n % 10) as u8;
    out.push(48 + d);
    assert(out@ =~= old(out)@ + decimal(n as nat));
}

/// Appends the bytes of `s` to `out`.
pub(crate) fn push_str(out: &mut Vec<u8>, s: &str)
    ensures
        final(out)@ == old(out)@ + s.spec_bytes(),
{
    let b = s.as_bytes();
    out.extend_from_slice(b);
    assert(out@ =~= old(out)@ + s.spec_bytes());
}

/// Appends one byte to `out`.
pub(crate) fn push_byte(out: &mut Vec<u8>, b: u8)
    ensures
        final(out)@ == old(out)@ + seq![b],
{
    out.push(b);
    assert(out@ =~= old(out)@ + seq![b]);
}

/// Appends `localhost` to `out`.
fn push_localhost(out: &mut Vec<u8>)
    ensures
        final(out)@ == old(out)@ + localhost(),
{
    out.push(108u8);
    out.push(111u8);
    out.push(99u8);
    out.push(97u8);
    out.push(108u8);
    out.push(104u8);
    out.push(111u8);
    out.push(115u8);
    out.push(116u8);
    assert(out@ =~= old(out)@ + localhost());
}

/// Formats messages of one facility, host, application and process.
#[derive(Clone, Debug)]
pub struct Formatter5424 {
    pub facility: Facility,
    /// Written as `localhost` when absent.
    pub hostname: Option<String>,
    /// The application name; written as `-` when absent.
    pub process: Option<String>,
    /// The process id; written as `-` when absent.
    pub pid: Option<u32>,
}

impl Formatter5424 {
    /// The HOSTNAME field.
    pub open spec fn host_field(&self) -> Seq<u8> {
        match self.hostname {
            Some(h) => encode_utf8(h@),
            None => localhost(),
        }
    }

    /// The APP-NAME field.
    pub open spec fn app_field(&self) -> Seq<u8> {
        match self.process {
            Some(p) => encode_utf8(p@),
            None => nil_value(),
        }
    }

    /// The PROCID field.
    pub open spec fn proc_id_field(&self) -> Seq<u8> {
        match self.pid {
            Some(p) => decimal(p as nat),
            None => nil_value(),
        }
    }

    /// The line for a message of `severity` stamped `timestamp`, with the
    /// structured data `data`.
    pub open spec fn spec_line(
        &self,
        severity: Severity,
        timestamp: Seq<u8>,
        data: Seq<SdElement>,
        msg: Seq<u8>,
    ) -> Seq<u8> {
        syslog_line(
            priority(severity, self.facility),
            timestamp,
            self.host_field(),
            self.app_field(),
            self.proc_id_field(),
            sd_field(data),
            msg,
        )
    }

    /// A formatter with the given identity.
    pub fn new(facility: Facility, hostname: Option<String>, process: Option<String>, pid: Option<u32>) -> (r: Self)
        ensures
            r.facility == facility,
            r.hostname == hostname,
            r.process == process,
            r.pid == pid,
    {
        Formatter5424 { facility, hostname, process, pid }
    }

    /// The line for `message` at `severity` with the structured data
    /// `data`, stamped with `timestamp`. It is valid UTF-8.
    pub fn render(&self, severity: Severity, timestamp: &str, data: &[SdElement], message: &str) -> (r: Vec<u8>)
        ensures
            r@ == self.spec_line(severity, timestamp.spec_bytes(), data@, message.spec_bytes()),
            valid_utf8(r@),
    {
        let mut out: Vec<u8> = Vec::new();
        push_byte(&mut out, 60u8);
        push_decimal(&mut out, encode_priority(severity, self.facility) as u32);
        let ghost head = out@;
        push_byte(&mut out, 62u8);
        push_byte(&mut out, 49u8);
        push_byte(&mut out, 32u8);
        assert(out@ =~= head + seq![62u8, 49u8, 32u8]);
        push_str(&mut out, timestamp);
        push_byte(&mut out, 32u8);
        match &self.hostname {
            Some(h) => push_str(&mut out, h.as_str()),
            None => push_localhost(&mut out),
        }
        push_byte(&mut out, 32u8);
        match &self.process {
            Some(p) => push_str(&mut out, p.as_str()),
            None => push_byte(&mut out, 45u8),
        }
        push_byte(&mut out, 32u8);
        match self.pid {
            Some(p) => push_decimal(&mut out, p),
            None => push_byte(&mut out, 45u8),
        }
        push_byte(&mut out, 32u8);
        push_byte(&mut out, 48u8);
        push_byte(&mut out, 32u8);
        push_sd_field(&mut out, data);
        push_byte(&mut out, 32u8);
        push_str(&mut out, message);
        proof {
            self.lemma_line_valid(severity, timestamp.spec_bytes(), data@, message.spec_bytes());
        }
        out
    }

    /// Lines built from valid UTF-8 are valid UTF-8.
    pub proof fn lemma_line_valid(
        &self,
        severity: Severity,
        timestamp: Seq<u8>,
        data: Seq<SdElement>,
        msg: Seq<u8>,
    )
        requires
            valid_utf8(timestamp),
            valid_utf8(msg),
        ensures
            valid_utf8(self.spec_line(severity, timestamp, data, msg)),
    {
        lemma_sd_field_valid(data);
        let pri = priority(severity, self.facility);
        lemma_decimal_ascii(pri as nat);
        lemma_ascii_valid_utf8(decimal(pri as nat));
        lemma_ascii_valid_utf8(seq![60u8]);
        lemma_ascii_valid_utf8(seq![62u8, 49u8, 32u8]);
        lemma_ascii_valid_utf8(seq![32u8]);
        lemma_ascii_valid_utf8(nil_value());
        lemma_ascii_valid_utf8(msg_id());
        lemma_ascii_valid_utf8(localhost());
        match self.pid {
            Some(p) => {
                lemma_decimal_ascii(p as nat);
                lemma_ascii_valid_utf8(decimal(p as nat));
            },
            None => {},
        }
        let host = self.host_field();
        let app = self.app_field();
        let proc_id = self.proc_id_field();
        let sp = seq![32u8];
        let a1 = seq![60u8] + decimal(pri as nat);
        valid_utf8_concat(seq![60u8], decimal(pri as nat));
        let a2 = a1 + seq![62u8, 49u8, 32u8];
        valid_utf8_concat(a1, seq![62u8, 49u8, 32u8]);
        let a3 = a2 + timestamp;
        valid_utf8_concat(a2, timestamp);
        let a4 = a3 + sp;
        valid_utf8_concat(a3, sp);
        let a5 = a4 + host;
        valid_utf8_concat(a4, host);
        let a6 = a5 + sp;
        valid_utf8_concat(a5, sp);
        let a7 = a6 + app;
        valid_utf8_concat(a6, app);
        let a8 = a7 + sp;
        valid_utf8_concat(a7, sp);
        let a9 = a8 + proc_id;
        valid_utf8_concat(a8, proc_id);
        let a10 = a9 + sp;
        valid_utf8_concat(a9, sp);
        let a11 = a10 + msg_id();
        valid_utf8_concat(a10, msg_id());
        let a12 = a11 + sp;
        valid_utf8_concat(a11, sp);
        let a13 = a12 + sd_field(data);
        valid_utf8_concat(a12, sd_field(data));
        let a14 = a13 + sp;
        valid_utf8_concat(a13, sp);
        valid_utf8_concat(a14, msg);
    }

    /// Writes the line for `message` at `severity` with the structured data
    /// `data`, stamped with `timestamp`, into `sink`.
    pub fn format_at(
        &self,
        sink: &mut MaxByteWriter,
        severity: Severity,
        timestamp: &str,
        data: &[SdElement],
        message: &str,
    )
        ensures
            final(sink)@ == write_step(
                old(sink)@,
                self.spec_line(severity, timestamp.spec_bytes(), data@, message.spec_bytes()),
            ),
    {
        let line = self.render(severity, timestamp, data, message);
        sink.write(line.as_slice());
    }

    /// Writes the line for `message` at `severity` with the structured data
    /// `data`, stamped with the current time, into `sink`.
    pub fn format(&self, sink: &mut MaxByteWriter, severity: Severity, data: &[SdElement], message: &str)
        ensures
            exists|timestamp: Seq<u8>|
                valid_utf8(timestamp) && utc_stamp_bytes(timestamp) && final(sink)@ == write_step(
                    old(sink)@,
                    #[trigger] self.spec_line(severity, timestamp, data@, message.spec_bytes()),
                ),
    {
        let timestamp = utc_timestamp();
        let stamp = timestamp.as_str();
        proof {
            lemma_utc_stamp_bytes(stamp);
        }
        self.format_at(sink, severity, stamp, data, message);
    }
}

/// A message borrowed from its owner, handed on to a formatter as it stands.
#[derive(Debug)]
pub struct StrWriter<'a> {
    s: &'a str,
}

impl<'a> StrWriter<'a> {
    pub fn new(s: &'a str) -> (r: Self)
        ensures
            r.view() == s@,
    {
        StrWriter { s }
    }

    /// The characters of the message.
    pub closed spec fn view(&self) -> Seq<char> {
        self.s@
    }

    /// The message.
    pub fn as_str(&self) -> (r: &'a str)
        ensures
            r@ == self.view(),
    {
        self.s
    }
}

/// What every timestamp of [`utc_timestamp`] looks like as bytes: ASCII,
/// without a space, not empty, ending in `Z`.
pub open spec fn utc_stamp_bytes(t: Seq<u8>) -> bool {
    &&& t.len() > 0
    &&& t.last() == 90u8
    &&& forall|i: int| 0 <= i < t.len() ==> #[trigger] t[i] < 0x80 && t[i] != 32u8
}

/// The bytes of a string shaped like a [`utc_timestamp`] result.
pub proof fn lemma_utc_stamp_bytes(s: &str)
    requires
        s@.len() > 0,
        s@.last() == 'Z',
        is_ascii_chars(s@),
        forall|i: int| 0 <= i < s@.len() ==> #[trigger] s@[i] != ' ',
    ensures
        utc_stamp_bytes(s.spec_bytes()),
{
    is_ascii_spec_bytes(s);
    let b = s.spec_bytes();
    assert forall|i: int| 0 <= i < b.len() implies #[trigger] b[i] < 0x80 && b[i] != 32u8 by {
        let c = s@[i];
        assert('\0' <= c <= '\u{7f}');
        assert(c != ' ');
    }
}

/// Relies on chrono's `Utc::now` and `DateTime::to_rfc3339_opts`: the time
/// of the call in UTC, as RFC 3339 with microseconds and a `Z` offset. Its
/// characters are digits, signs, `T`, `:` and `.`, then the final `Z`.
#[verifier::external_body]
pub(crate) fn utc_timestamp() -> (r: String)
    ensures
        r@.len() > 0,
        r@.last() == 'Z',
        is_ascii_chars(r@),
        forall|i: int| 0 <= i < r@.len() ==> #[trigger] r@[i] != ' ',
{
    chrono::Utc::now().to_rfc3339_opts(chrono::SecondsFormat::Micros, true)
}

} // verus!
