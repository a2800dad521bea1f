//! Formats log records as RFC 5424 syslog lines, bounds them to a byte budget
//! without splitting a UTF-8 scalar, and decides how a writer sends them and
//! recovers from transport failure.
//!
//! - [`boundary`]: character boundaries in UTF-8 bytes.
//! - [`bounded`]: [`bounded::MaxByteWriter`], a sink that keeps at most a
//!   fixed number of bytes and reports every write as complete.
//! - [`priority`]: facilities, severities, log levels and the priority value.
//! - [`format`] and [`sdata`]: the RFC 5424 line and its structured data.
//! - [`writer`]: [`writer::LogWriter`], which formats each record into its
//!   buffer and says when to send and when to reconnect.
//! - [`cstr`] and [`log_option`]: the pieces of a writer over the C `syslog`.
pub mod boundary;
pub mod bounded;
pub mod priority;
pub mod format;
pub mod sdata;
pub mod writer;
pub mod cstr;
pub mod log_option;
