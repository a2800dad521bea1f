//! Character boundaries in UTF-8 byte sequences.
use vstd::prelude::*;
use vstd::string::*;
use vstd::utf8::*;

verus! {

broadcast use {vstd::utf8::group_utf8_lib, vstd::string::group_string_axioms};

/// The largest index `k <= limit` such that `k == 0` or `bytes[k]` starts a
/// scalar (is not a continuation byte).
pub open spec fn boundary_at_or_before(bytes: Seq<u8>, limit: int) -> int
    decreases limit,
{
    if limit <= 0 {
        0
    } else if !is_continuation_byte(bytes[limit]) {
        limit
    } else {
        boundary_at_or_before(bytes, limit - 1)
    }
}

/// `boundary_at_or_before` lies in `[0, limit]`, does not start with a
/// continuation byte (unless it is 0), and every index above it up to `limit`
/// holds a continuation byte.
pub proof fn lemma_boundary_at_or_before(bytes: Seq<u8>, limit: int)
    requires
        0 <= limit < bytes.len(),
    ensures
        0 <= boundary_at_or_before(bytes, limit) <= limit,
        boundary_at_or_before(bytes, limit) == 0 || !is_continuation_byte(
            bytes[boundary_at_or_before(bytes, limit)],
        ),
        forall|j: int|
            boundary_at_or_before(bytes, limit) < j <= limit ==> is_continuation_byte(
                #[trigger] bytes[j],
            ),
    decreases limit,
{
    if limit > 0 && is_continuation_byte(bytes[limit]) {
        lemma_boundary_at_or_before(bytes, limit - 1);
    }
}

/// In valid UTF-8, `boundary_at_or_before` is a character boundary, so the
/// prefix ending there is valid UTF-8 too.
pub proof fn lemma_prefix_at_boundary_valid(bytes: Seq<u8>, limit: int)
    requires
        valid_utf8(bytes),
        0 <= limit < bytes.len(),
    ensures
        vstd::utf8::is_char_boundary(bytes, boundary_at_or_before(bytes, limit)),
        valid_utf8(bytes.subrange(0, boundary_at_or_before(bytes, limit))),
{
    lemma_boundary_at_or_before(bytes, limit);
    let k = boundary_at_or_before(bytes, limit);
    if k == 0 {
        is_char_boundary_start_end_of_seq(bytes);
    } else {
        is_char_boundary_iff_not_is_continuation_byte(bytes, k);
    }
    valid_utf8_split(bytes, k);
}

/// Whether `b` may start a UTF-8 scalar, i.e. is not a continuation byte
/// (`10xxxxxx`).
pub fn is_char_boundary(b: u8) -> (r: bool)
    ensures
        r == !is_continuation_byte(b),
{
    b < 0x80 || b >= 0xc0
}

/// The index of the last byte of `buf` that starts a scalar; 0 when no byte
/// after the first does.
pub fn find_char_boundary_from_end(buf: &[u8]) -> (r: usize)
    requires
        buf@.len() > 0,
    ensures
        r as int == boundary_at_or_before(buf@, buf@.len() - 1),
{
    if buf.len() == 1 {
        0
    } else {
        let mut i: usize = buf.len() - 1;
        while i > 0 && !is_char_boundary(buf[i])
            invariant
                0 <= i < buf@.len(),
                boundary_at_or_before(buf@, i as int) == boundary_at_or_before(
                    buf@,
                    buf@.len() - 1,
                ),
            decreases i,
        {
            i -= 1;
        }
        i
    }
}

/// The largest character boundary of `s` that is at most `max`, or the
/// length of `s` when `max` reaches past it.
pub fn find_char_boundary_back_from_index(s: &str, max: usize) -> (r: usize)
    ensures
        max >= s.spec_bytes().len() ==> r == s.spec_bytes().len(),
        max < s.spec_bytes().len() ==> r as int == boundary_at_or_before(s.spec_bytes(), max as int),
        r <= s.spec_bytes().len(),
        vstd::utf8::is_char_boundary(s.spec_bytes(), r as int),
{
    let ghost bytes = s.spec_bytes();
    let len = s.as_bytes().len();
    if max >= len {
        proof {
            is_char_boundary_start_end_of_seq(bytes);
        }
        len
    } else {
        let mut i: usize = max;
        proof {
            lemma_prefix_at_boundary_valid(bytes, max as int);
        }
        while !s.is_char_boundary(i)
            invariant
                i <= max < bytes.len(),
                bytes == s.spec_bytes(),
                valid_utf8(bytes),
                boundary_at_or_before(bytes, i as int) == boundary_at_or_before(bytes, max as int),
            decreases i,
        {
            proof {
                if i == 0 {
                    is_char_boundary_start_end_of_seq(bytes);
                } else {
                    is_char_boundary_iff_not_is_continuation_byte(bytes, i as int);
                }
            }
            i -= 1;
        }
        proof {
            if i > 0 {
                is_char_boundary_iff_not_is_continuation_byte(bytes, i as int);
            }
        }
        i
    }
}

} // verus!
