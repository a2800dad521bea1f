//! Turns a formatted message into the NUL-terminated bytes that the C
//! `syslog` call takes, cut to a byte budget at a character boundary.
use vstd::prelude::*;
use vstd::string::*;
use vstd::utf8::*;

use crate::boundary::{boundary_at_or_before, find_char_boundary_back_from_index};

verus! {

broadcast use {vstd::utf8::group_utf8_lib, vstd::string::group_string_axioms};

/// The bytes were not valid UTF-8.
#[derive(Clone, Copy, Debug, PartialEq, Eq, Structural)]
pub struct InvalidUtf8;

/// Where a message of `bytes` is cut for a budget of `max_bytes`: at the
/// largest character boundary not above the budget.
pub open spec fn cstr_cut(bytes: Seq<u8>, max_bytes: Option<usize>) -> int {
    match max_bytes {
        Some(m) => if m >= bytes.len() {
            bytes.len() as int
        } else {
            boundary_at_or_before(bytes, m as int)
        },
        None => bytes.len() as int,
    }
}

/// Relies on `std::str::from_utf8`: it succeeds exactly when the bytes are
/// valid UTF-8, and then views the same bytes as a `str`.
#[verifier::external_body]
fn utf8_str(b: &[u8]) -> (r: Option<&str>)
    ensures
        r.is_some() == valid_utf8(b@),
        r matches Some(s) ==> s.spec_bytes() == b@,
{
    std::str::from_utf8(b).ok()
}

/// Appends a NUL byte to `buffer`. With a budget, first cuts `buffer` to
/// at most `max_bytes` bytes, before a character that would not fit; this
/// needs `buffer` to be valid UTF-8, and fails, leaving `buffer` as it is,
/// when it is not. Without a budget the bytes are kept as they are.
pub fn buffer_to_cstr(buffer: &mut Vec<u8>, max_bytes: Option<usize>) -> (r: Result<(), InvalidUtf8>)
    ensures
        r.is_ok() == (max_bytes.is_none() || valid_utf8(old(buffer)@)),
        r.is_ok() ==> final(buffer)@ == old(buffer)@.subrange(0, cstr_cut(old(buffer)@, max_bytes))
            + seq![0u8],
        r.is_err() ==> final(buffer)@ == old(buffer)@,
{
    let new_len = match max_bytes {
        Some(max) => match utf8_str(buffer.as_slice()) {
            Some(s) => find_char_boundary_back_from_index(s, max),
            None => {
                return Err(InvalidUtf8);
            },
        },
        None => buffer.len(),
    };
    proof {
        if let Some(m) = max_bytes {
            if m < buffer@.len() {
                crate::boundary::lemma_boundary_at_or_before(buffer@, m as int);
            }
        }
    }
    buffer.truncate(new_len);
    buffer.push(0u8);
    assert(buffer@ =~= old(buffer)@.subrange(0, cstr_cut(old(buffer)@, max_bytes)) + seq![0u8]);
    Ok(())
}

} // verus!
