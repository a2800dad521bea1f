//! A byte sink that forwards at most a fixed number of bytes, cutting only
//! in front of a byte that starts a UTF-8 scalar.
use vstd::prelude::*;
use vstd::utf8::*;

use crate::boundary::{
    boundary_at_or_before, find_char_boundary_from_end, lemma_boundary_at_or_before,
    lemma_prefix_at_boundary_valid,
};

verus! {

broadcast use vstd::utf8::group_utf8_lib;

/// What a [`MaxByteWriter`] holds: the bytes forwarded so far, how many more
/// may be forwarded, and whether any byte handed to it was dropped.
pub struct BoundedState {
    pub written: Seq<u8>,
    pub remaining: nat,
    pub truncated: bool,
}

/// The state after one `write` of `buf`. Everything fits: all of it is
/// forwarded. Part of it fits: the longest prefix of at most `remaining`
/// bytes that ends in front of a scalar's first byte is forwarded, and
/// nothing more will be. Nothing fits: it is dropped.
pub open spec fn write_step(s: BoundedState, buf: Seq<u8>) -> BoundedState {
    if s.remaining == 0 {
        BoundedState { truncated: s.truncated || buf.len() > 0, ..s }
    } else if buf.len() <= s.remaining {
        BoundedState {
            written: s.written + buf,
            remaining: (s.remaining - buf.len()) as nat,
            truncated: s.truncated,
        }
    } else {
        BoundedState {
            written: s.written + buf.subrange(0, boundary_at_or_before(buf, s.remaining as int)),
            remaining: 0,
            truncated: true,
        }
    }
}

/// What one write of `bytes` into an empty writer with room for `max_bytes`
/// keeps: all of `bytes` if it fits, else its longest prefix of at most
/// `max_bytes` bytes that ends in front of a scalar's first byte.
pub open spec fn bounded(bytes: Seq<u8>, max_bytes: nat) -> Seq<u8> {
    write_step(BoundedState { written: seq![], remaining: max_bytes, truncated: false }, bytes).written
}

/// Bounding a line from empty keeps at most `max_bytes` bytes, and drops
/// some exactly when the line is longer.
pub proof fn lemma_bounded_within(bytes: Seq<u8>, max_bytes: nat)
    ensures
        bounded(bytes, max_bytes).len() <= max_bytes,
        bytes.len() <= max_bytes ==> bounded(bytes, max_bytes) == bytes,
        write_step(
            BoundedState { written: seq![], remaining: max_bytes, truncated: false },
            bytes,
        ).truncated == (bytes.len() > max_bytes),
        valid_utf8(bytes) ==> valid_utf8(bounded(bytes, max_bytes)),
{
    let s = BoundedState { written: seq![], remaining: max_bytes, truncated: false };
    assert(valid_utf8(s.written));
    if max_bytes != 0 && bytes.len() > max_bytes {
        lemma_boundary_at_or_before(bytes, max_bytes as int);
    }
    if bytes.len() <= max_bytes {
        assert(s.written + bytes =~= bytes);
    }
    if valid_utf8(bytes) {
        lemma_write_step_valid_utf8(s, bytes);
    }
}

/// One write keeps valid UTF-8 valid.
pub proof fn lemma_write_step_valid_utf8(s: BoundedState, buf: Seq<u8>)
    requires
        valid_utf8(s.written),
        valid_utf8(buf),
    ensures
        valid_utf8(write_step(s, buf).written),
{
    if s.remaining != 0 && buf.len() > s.remaining {
        lemma_prefix_at_boundary_valid(buf, s.remaining as int);
        valid_utf8_concat(
            s.written,
            buf.subrange(0, boundary_at_or_before(buf, s.remaining as int)),
        );
    } else if s.remaining != 0 {
        valid_utf8_concat(s.written, buf);
    }
}

/// Writing `a` and then `b` leaves the same state as writing `a + b` at
/// once, when `b` starts a scalar (as valid UTF-8 does): the cut falls at the
/// same place whichever piece it falls in.
pub proof fn lemma_write_step_pieces(s: BoundedState, a: Seq<u8>, b: Seq<u8>)
    requires
        valid_utf8(b),
    ensures
        write_step(write_step(s, a), b) == write_step(s, a + b),
{
    let ab = a + b;
    if s.remaining == 0 {
    } else if a.len() > s.remaining {
        lemma_boundary_prefix(a, ab, s.remaining as int);
        lemma_boundary_at_or_before(a, s.remaining as int);
        assert(ab.subrange(0, boundary_at_or_before(ab, s.remaining as int)) =~= a.subrange(
            0,
            boundary_at_or_before(a, s.remaining as int),
        ));
    } else {
        let rest = (s.remaining - a.len()) as nat;
        if b.len() <= rest {
            assert(s.written + a + b =~= s.written + ab);
        } else if rest == 0 {
            // the cut falls at the end of `a`, in front of the first scalar of `b`
            is_char_boundary_start_end_of_seq(b);
            is_char_boundary_iff_not_is_continuation_byte(b, 0);
            assert(ab[a.len() as int] == b[0]);
            assert(ab.subrange(0, a.len() as int) =~= a);
            assert(s.written + a =~= s.written + ab.subrange(0, boundary_at_or_before(ab, s.remaining as int)));
        } else {
            lemma_boundary_shift(a, b, rest as int);
            lemma_boundary_at_or_before(b, rest as int);
            let k = boundary_at_or_before(b, rest as int);
            assert(ab.subrange(0, a.len() + k) =~= a + b.subrange(0, k));
            assert(s.written + a + b.subrange(0, k) =~= s.written + (a + b.subrange(0, k)));
        }
    }
}

/// Within `b`, the cut of `a + b` is the cut of `b` moved by `a.len()`.
proof fn lemma_boundary_shift(a: Seq<u8>, b: Seq<u8>, k: int)
    requires
        valid_utf8(b),
        0 <= k < b.len(),
    ensures
        boundary_at_or_before(a + b, a.len() + k) == a.len() + boundary_at_or_before(b, k),
    decreases k,
{
    let ab = a + b;
    assert(ab[a.len() + k] == b[k]);
    if k == 0 {
        if a.len() > 0 {
            is_char_boundary_start_end_of_seq(b);
            is_char_boundary_iff_not_is_continuation_byte(b, 0);
        }
    } else if is_continuation_byte(b[k]) {
        lemma_boundary_shift(a, b, k - 1);
    }
}

/// Writes at most a fixed number of bytes into a buffer and ignores the
/// rest, while reporting every write as complete.
#[derive(Debug)]
pub struct MaxByteWriter {
    bytes_remaining: usize,
    truncated: bool,
    w: Vec<u8>,
}

impl View for MaxByteWriter {
    type V = BoundedState;

    closed spec fn view(&self) -> BoundedState {
        BoundedState {
            written: self.w@,
            remaining: self.bytes_remaining as nat,
            truncated: self.truncated,
        }
    }
}

impl MaxByteWriter {
    /// A writer that appends at most `max_bytes` bytes to `w`.
    pub fn new(w: Vec<u8>, max_bytes: usize) -> (r: Self)
        ensures
            r@ == (BoundedState { written: w@, remaining: max_bytes as nat, truncated: false }),
    {
        Self { bytes_remaining: max_bytes, truncated: false, w }
    }

    /// Forwards what fits of `buf` (see [`write_step`]) and reports all of
    /// `buf` as written.
    pub fn write(&mut self, buf: &[u8]) -> (r: usize)
        ensures
            r == buf@.len(),
            final(self)@ == write_step(old(self)@, buf@),
            valid_utf8(old(self)@.written) && valid_utf8(buf@) ==> valid_utf8(
                final(self)@.written,
            ),
    {
        proof {
            if valid_utf8(self@.written) && valid_utf8(buf@) {
                lemma_write_step_valid_utf8(self@, buf@);
            }
        }
        if self.bytes_remaining == 0 {
            // nothing more may be forwarded: pretend to write it
            if buf.len() > 0 {
                self.truncated = true;
            }
        } else if buf.len() <= self.bytes_remaining {
            // the whole of buf fits
            self.w.extend_from_slice(buf);
            assert(self.w@ =~= old(self).w@ + buf@);
            self.bytes_remaining = self.bytes_remaining - buf.len();
        } else {
            // room for part of buf: cut in front of the scalar that would be split
            let head = &buf[0..self.bytes_remaining + 1];
            let i = find_char_boundary_from_end(head);
            proof {
                crate::boundary::lemma_boundary_at_or_before(head@, self.bytes_remaining as int);
                assert forall|k: int| 0 <= k <= self.bytes_remaining implies
                    boundary_at_or_before(head@, k) == boundary_at_or_before(buf@, k) by {
                    lemma_boundary_prefix(head@, buf@, k);
                }
            }
            let kept = &buf[0..i];
            self.w.extend_from_slice(kept);
            assert(self.w@ =~= old(self).w@ + buf@.subrange(0, i as int));
            self.bytes_remaining = 0;
            self.truncated = true;
        }
        buf.len()
    }

    /// Nothing is held back, so there is nothing to flush.
    pub fn flush(&mut self)
        ensures
            final(self)@ == old(self)@,
    {
    }

    /// The bytes forwarded so far.
    pub fn get_ref(&self) -> (r: &Vec<u8>)
        ensures
            r@ == self@.written,
    {
        &self.w
    }

    /// Whether any byte handed to this writer was dropped.
    pub fn is_truncated(&self) -> (r: bool)
        ensures
            r == self@.truncated,
    {
        self.truncated
    }

    /// How many more bytes may be forwarded.
    pub fn bytes_remaining(&self) -> (r: usize)
        ensures
            r == self@.remaining,
    {
        self.bytes_remaining
    }

    /// Gives the buffer back.
    pub fn into_inner(self) -> (r: Vec<u8>)
        ensures
            r@ == self@.written,
    {
        self.w
    }
}

/// `boundary_at_or_before` only looks at the bytes up to its limit.
proof fn lemma_boundary_prefix(a: Seq<u8>, b: Seq<u8>, k: int)
    requires
        0 <= k < a.len(),
        a.len() <= b.len(),
        forall|j: int| 0 <= j < a.len() ==> a[j] == b[j],
    ensures
        boundary_at_or_before(a, k) == boundary_at_or_before(b, k),
    decreases k,
{
    if k > 0 {
        lemma_boundary_prefix(a, b, k - 1);
    }
}

} // verus!
