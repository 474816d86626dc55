//! The byte cursor: primitive decode operations over an immutable byte slice
//! with a movable read position.
//!
//! Every read is specified against a spec-level decode function over the
//! underlying byte sequence (`spec_u8`, `spec_leb`, `spec_le_bytes` and the
//! typed forms built on them), so success, the value returned and the bytes
//! consumed are all pinned down exactly. Cloning a reader copies the cursor
//! state and shares the underlying buffer; it never copies the bytes.

use vstd::prelude::*;
use vstd::arithmetic::power2::{pow2, lemma_pow2_adds, lemma_pow2_strictly_increases, lemma2_to64, lemma2_to64_rest};
use vstd::slice::slice_index_get;
use crate::error::{BinaryReaderError, ErrorKind, Result};

verus! {

// ---------------------------------------------------------------------------
// Spec-level decoding of primitives.
//
// Each function takes the byte sequence and the position to decode at, and
// returns `None` when the bytes there are malformed, or `Some` of the decoded
// value and the position just past it.
// ---------------------------------------------------------------------------

/// One byte.
pub open spec fn spec_u8(s: Seq<u8>, pos: int) -> Option<(u8, int)> {
    if 0 <= pos < s.len() {
        Some((s[pos], pos + 1))
    } else {
        None
    }
}

/// An unsigned variable-length integer of at most `max_bytes` bytes, as a
/// mathematical integer. Each byte contributes its low seven bits, least
/// significant group first; a set high bit continues to the next byte.
pub open spec fn spec_leb(s: Seq<u8>, pos: int, max_bytes: nat) -> Option<(int, int)>
    decreases max_bytes,
{
    if max_bytes == 0 || pos < 0 || pos >= s.len() {
        None
    } else {
        let b = s[pos];
        if b < 128 {
            Some((b as int, pos + 1))
        } else {
            match spec_leb(s, pos + 1, (max_bytes - 1) as nat) {
                Some(rest) => Some(((b - 128) + 128 * rest.0, rest.1)),
                None => None,
            }
        }
    }
}

/// A signed (two's complement) variable-length integer of at most
/// `max_bytes` bytes, as a mathematical integer. The final byte's seven
/// value bits are sign-extended.
pub open spec fn spec_leb_signed(s: Seq<u8>, pos: int, max_bytes: nat) -> Option<(int, int)>
    decreases max_bytes,
{
    if max_bytes == 0 || pos < 0 || pos >= s.len() {
        None
    } else {
        let b = s[pos];
        if b < 128 {
            if b >= 64 {
                Some((b - 128, pos + 1))
            } else {
                Some((b as int, pos + 1))
            }
        } else {
            match spec_leb_signed(s, pos + 1, (max_bytes - 1) as nat) {
                Some(rest) => Some(((b - 128) + 128 * rest.0, rest.1)),
                None => None,
            }
        }
    }
}

/// `n` bytes interpreted as an unsigned little-endian integer.
pub open spec fn spec_le_bytes(s: Seq<u8>, pos: int, n: nat) -> Option<(int, int)>
    decreases n,
{
    if n == 0 {
        Some((0, pos))
    } else if pos < 0 || pos >= s.len() {
        None
    } else {
        match spec_le_bytes(s, pos + 1, (n - 1) as nat) {
            Some(rest) => Some(((s[pos] as int) + 256 * rest.0, rest.1)),
            None => None,
        }
    }
}

/// A 32-bit unsigned variable-length integer: at most five bytes, value in
/// `u32` range.
pub open spec fn spec_var_u32(s: Seq<u8>, pos: int) -> Option<(u32, int)> {
    match spec_leb(s, pos, 5) {
        Some(ve) => if ve.0 <= u32::MAX as int {
            Some((ve.0 as u32, ve.1))
        } else {
            None
        },
        None => None,
    }
}

/// A 64-bit unsigned variable-length integer: at most ten bytes, value in
/// `u64` range.
pub open spec fn spec_var_u64(s: Seq<u8>, pos: int) -> Option<(u64, int)> {
    match spec_leb(s, pos, 10) {
        Some(ve) => if ve.0 <= u64::MAX as int {
            Some((ve.0 as u64, ve.1))
        } else {
            None
        },
        None => None,
    }
}

/// A 32-bit signed variable-length integer: at most five bytes, value in
/// `i32` range.
pub open spec fn spec_var_i32(s: Seq<u8>, pos: int) -> Option<(i32, int)> {
    match spec_leb_signed(s, pos, 5) {
        Some(ve) => if i32::MIN as int <= ve.0 <= i32::MAX as int {
            Some((ve.0 as i32, ve.1))
        } else {
            None
        },
        None => None,
    }
}

/// A 64-bit signed variable-length integer: at most ten bytes, value in
/// `i64` range.
pub open spec fn spec_var_i64(s: Seq<u8>, pos: int) -> Option<(i64, int)> {
    match spec_leb_signed(s, pos, 10) {
        Some(ve) => if i64::MIN as int <= ve.0 <= i64::MAX as int {
            Some((ve.0 as i64, ve.1))
        } else {
            None
        },
        None => None,
    }
}

/// A 33-bit signed variable-length integer (used by block types): at most
/// five bytes, value in `[-2^32, 2^32)`, returned widened to `i64`.
pub open spec fn spec_var_s33(s: Seq<u8>, pos: int) -> Option<(i64, int)> {
    match spec_leb_signed(s, pos, 5) {
        Some(ve) => if -0x1_0000_0000 <= ve.0 <= 0xFFFF_FFFF {
            Some((ve.0 as i64, ve.1))
        } else {
            None
        },
        None => None,
    }
}

/// A 32-bit little-endian fixed-width integer.
pub open spec fn spec_u32_le(s: Seq<u8>, pos: int) -> Option<(u32, int)> {
    match spec_le_bytes(s, pos, 4) {
        Some(ve) => Some((ve.0 as u32, ve.1)),
        None => None,
    }
}

/// A 64-bit little-endian fixed-width integer.
pub open spec fn spec_u64_le(s: Seq<u8>, pos: int) -> Option<(u64, int)> {
    match spec_le_bytes(s, pos, 8) {
        Some(ve) => Some((ve.0 as u64, ve.1)),
        None => None,
    }
}

// ---------------------------------------------------------------------------
// Bounds on the spec-level decoders: values fit their bit budget and
// positions advance by at most the byte budget, never past the end.
// ---------------------------------------------------------------------------

/// `pow2` is monotone.
pub proof fn lemma_pow2_le(e1: nat, e2: nat)
    requires
        e1 <= e2,
    ensures
        pow2(e1) <= pow2(e2),
{
    if e1 < e2 {
        lemma_pow2_strictly_increases(e1, e2);
    }
}

/// A decoded unsigned variable-length integer of at most `max_bytes` bytes
/// is below `2^(7 * max_bytes)`, and consumes between one and `max_bytes`
/// bytes, all in range.
pub proof fn lemma_spec_leb_bound(s: Seq<u8>, pos: int, max_bytes: nat)
    ensures
        spec_leb(s, pos, max_bytes) matches Some(ve) ==> {
            &&& 0 <= ve.0 < pow2(7 * max_bytes)
            &&& pos < ve.1 <= pos + max_bytes
            &&& ve.1 <= s.len()
        },
    decreases max_bytes,
{
    if max_bytes == 0 || pos < 0 || pos >= s.len() {
    } else {
        let b = s[pos];
        lemma2_to64();
        lemma_pow2_adds(7, 7 * (max_bytes - 1) as nat);
        let p = pow2(7 * (max_bytes - 1) as nat);
        assert(pow2(7 * max_bytes) == 128 * p);
        vstd::arithmetic::power2::lemma_pow2_pos(7 * (max_bytes - 1) as nat);
        if b < 128 {
            assert(b < 128 * p) by (nonlinear_arith)
                requires b < 128 && p >= 1;
        } else {
            lemma_spec_leb_bound(s, pos + 1, (max_bytes - 1) as nat);
            match spec_leb(s, pos + 1, (max_bytes - 1) as nat) {
                Some(rest) => {
                    assert(0 <= (b - 128) + 128 * rest.0 < 128 * p) by (nonlinear_arith)
                        requires 128 <= b < 256 && 0 <= rest.0 < p;
                }
                None => {}
            }
        }
    }
}

/// A decoded signed variable-length integer of at most `max_bytes` bytes is
/// strictly between `-2^(7 * max_bytes)` and `2^(7 * max_bytes)`, and
/// consumes between one and `max_bytes` bytes, all in range.
pub proof fn lemma_spec_leb_signed_bound(s: Seq<u8>, pos: int, max_bytes: nat)
    ensures
        spec_leb_signed(s, pos, max_bytes) matches Some(ve) ==> {
            &&& -pow2(7 * max_bytes) < ve.0 < pow2(7 * max_bytes)
            &&& pos < ve.1 <= pos + max_bytes
            &&& ve.1 <= s.len()
        },
    decreases max_bytes,
{
    if max_bytes == 0 || pos < 0 || pos >= s.len() {
    } else {
        let b = s[pos];
        lemma2_to64();
        lemma_pow2_adds(7, 7 * (max_bytes - 1) as nat);
        let p = pow2(7 * (max_bytes - 1) as nat);
        assert(pow2(7 * max_bytes) == 128 * p);
        vstd::arithmetic::power2::lemma_pow2_pos(7 * (max_bytes - 1) as nat);
        if b < 128 {
            if b >= 64 {
                assert(-(128 * p) < b - 128 && b - 128 < 128 * p) by (nonlinear_arith)
                    requires 64 <= b < 128 && p >= 1;
            } else {
                assert(-(128 * p) < b && b < 128 * p) by (nonlinear_arith)
                    requires b < 64 && p >= 1;
            }
        } else {
            lemma_spec_leb_signed_bound(s, pos + 1, (max_bytes - 1) as nat);
            match spec_leb_signed(s, pos + 1, (max_bytes - 1) as nat) {
                Some(rest) => {
                    assert(-(128 * p) < (b - 128) + 128 * rest.0 < 128 * p) by (nonlinear_arith)
                        requires 128 <= b < 256 && -p < rest.0 < p;
                }
                None => {}
            }
        }
    }
}

/// A little-endian value of `n` bytes is below `2^(8 * n)`, and consumes
/// exactly `n` bytes, all in range.
pub proof fn lemma_spec_le_bytes_bound(s: Seq<u8>, pos: int, n: nat)
    ensures
        spec_le_bytes(s, pos, n) matches Some(ve) ==> {
            &&& 0 <= ve.0 < pow2(8 * n)
            &&& ve.1 == pos + n
            &&& pos >= 0 || n == 0
            &&& ve.1 <= s.len() || n == 0
        },
    decreases n,
{
    if n == 0 {
        assert(pow2(0) == 1) by {
            lemma2_to64();
        }
    } else if pos < 0 || pos >= s.len() {
    } else {
        let b = s[pos];
        lemma2_to64();
        lemma_pow2_adds(8, 8 * (n - 1) as nat);
        let p = pow2(8 * (n - 1) as nat);
        assert(pow2(8 * n) == 256 * p);
        vstd::arithmetic::power2::lemma_pow2_pos(8 * (n - 1) as nat);
        lemma_spec_le_bytes_bound(s, pos + 1, (n - 1) as nat);
        match spec_le_bytes(s, pos + 1, (n - 1) as nat) {
            Some(rest) => {
                assert(0 <= (b as int) + 256 * rest.0 < 256 * p) by (nonlinear_arith)
                    requires 0 <= b < 256 && 0 <= rest.0 < p;
            }
            None => {}
        }
    }
}

/// A variable-length integer decode depends only on the bytes it consumes:
/// decoding the same byte window at another position of another sequence
/// gives the same value and consumes the same number of bytes.
pub proof fn lemma_leb_transport(s: Seq<u8>, pos: int, t: Seq<u8>, q: int, max_bytes: nat)
    requires
        0 <= pos,
        0 <= q,
        spec_leb(s, pos, max_bytes) is Some,
        q + (spec_leb(s, pos, max_bytes)->Some_0.1 - pos) <= t.len(),
        forall|i: int|
            0 <= i < spec_leb(s, pos, max_bytes)->Some_0.1 - pos ==> s[pos + i] == #[trigger] t[q + i],
    ensures
        spec_leb(t, q, max_bytes) == Some(
            (
                spec_leb(s, pos, max_bytes)->Some_0.0,
                q + (spec_leb(s, pos, max_bytes)->Some_0.1 - pos),
            ),
        ),
    decreases max_bytes,
{
    lemma_spec_leb_bound(s, pos, max_bytes);
    let ve = spec_leb(s, pos, max_bytes)->Some_0;
    let b = s[pos];
    assert(t[q + 0] == s[pos + 0]);
    assert(t[q] == b);
    if b >= 128 {
        let sub = spec_leb(s, pos + 1, (max_bytes - 1) as nat)->Some_0;
        assert forall|i: int| 0 <= i < sub.1 - (pos + 1) implies s[pos + 1 + i] == #[trigger] t[q + 1
            + i] by {
            assert(s[pos + (i + 1)] == t[q + (i + 1)]);
        }
        lemma_leb_transport(s, pos + 1, t, q + 1, (max_bytes - 1) as nat);
    }
}

/// The 32-bit form of [`lemma_leb_transport`].
pub proof fn lemma_var_u32_transport(s: Seq<u8>, pos: int, t: Seq<u8>, q: int)
    requires
        0 <= pos,
        0 <= q,
        spec_var_u32(s, pos) is Some,
        q + (spec_var_u32(s, pos)->Some_0.1 - pos) <= t.len(),
        forall|i: int|
            0 <= i < spec_var_u32(s, pos)->Some_0.1 - pos ==> s[pos + i] == #[trigger] t[q + i],
    ensures
        spec_var_u32(t, q) == Some(
            (spec_var_u32(s, pos)->Some_0.0, q + (spec_var_u32(s, pos)->Some_0.1 - pos)),
        ),
{
    lemma_leb_transport(s, pos, t, q, 5);
}

/// Little-endian decoding succeeds exactly when `n` bytes are in range.
pub proof fn lemma_spec_le_bytes_some(s: Seq<u8>, pos: int, n: nat)
    requires
        0 <= pos,
        pos + n <= s.len(),
    ensures
        spec_le_bytes(s, pos, n) is Some,
    decreases n,
{
    if n > 0 {
        lemma_spec_le_bytes_some(s, pos + 1, (n - 1) as nat);
    }
}

// ---------------------------------------------------------------------------
// The executable cursor.
// ---------------------------------------------------------------------------

/// A positioned read cursor over one function body's bytes.
///
/// `original_offset` is the absolute offset of the first byte in scope, kept
/// for diagnostics; `position` indexes into `data`.
#[derive(Debug, Clone, Copy)]
pub struct BinaryReader<'a> {
    data: &'a [u8],
    position: usize,
    original_offset: usize,
}

impl<'a> BinaryReader<'a> {
    /// The bytes in scope.
    pub closed spec fn spec_data(&self) -> Seq<u8> {
        self.data@
    }

    /// The current read position, as an index into `spec_data()`.
    pub closed spec fn spec_pos(&self) -> int {
        self.position as int
    }

    /// The absolute offset of the first byte in scope.
    pub closed spec fn spec_offset(&self) -> int {
        self.original_offset as int
    }

    /// Well-formedness: the position stays in scope and absolute offsets fit
    /// in `usize`.
    pub open spec fn wf(&self) -> bool {
        &&& 0 <= self.spec_pos() <= self.spec_data().len()
        &&& self.spec_offset() + self.spec_data().len() <= usize::MAX as int
    }

    /// Scopes a fresh cursor to `data`, whose first byte sits at absolute
    /// offset `original_offset`.
    pub fn new(data: &'a [u8], original_offset: usize) -> (r: BinaryReader<'a>)
        requires
            original_offset + data@.len() <= usize::MAX as int,
        ensures
            r.wf(),
            r.spec_data() == data@,
            r.spec_pos() == 0,
            r.spec_offset() == original_offset as int,
    {
        BinaryReader { data, position: 0, original_offset }
    }

    /// True iff every byte in scope has been consumed.
    pub fn eof(&self) -> (r: bool)
        requires
            self.wf(),
        ensures
            r == (self.spec_pos() == self.spec_data().len()),
    {
        self.position >= self.data.len()
    }

    /// The absolute byte offset of the next byte to be read.
    pub fn original_position(&self) -> (r: usize)
        requires
            self.wf(),
        ensures
            r as int == self.spec_offset() + self.spec_pos(),
    {
        self.original_offset + self.position
    }

    /// The bytes not yet consumed, shared with the underlying buffer.
    pub fn remaining_buffer(&self) -> (r: &'a [u8])
        requires
            self.wf(),
        ensures
            r@ == self.spec_data().subrange(self.spec_pos(), self.spec_data().len() as int),
    {
        vstd::slice::slice_subrange(self.data, self.position, self.data.len())
    }

    /// True iff exactly one `end` opcode byte remains in scope.
    pub fn is_end_then_eof(&self) -> (r: bool)
        requires
            self.wf(),
        ensures
            r == (self.spec_pos() + 1 == self.spec_data().len()
                && self.spec_data()[self.spec_pos()] == 0x0b),
    {
        if self.position < self.data.len() && self.data.len() - self.position == 1 {
            let b: u8 = *slice_index_get(self.data, self.position);
            b == 0x0b
        } else {
            false
        }
    }

    /// The current read position as a raw index into the scoped bytes.
    pub(crate) fn pos_index(&self) -> (r: usize)
        ensures
            r as int == self.spec_pos(),
    {
        self.position
    }

    /// The scoped bytes between two in-range indexes, shared with the
    /// underlying buffer.
    pub(crate) fn subslice(&self, start: usize, end: usize) -> (r: &'a [u8])
        requires
            self.wf(),
            start <= end,
            end as int <= self.spec_data().len(),
        ensures
            r@ == self.spec_data().subrange(start as int, end as int),
    {
        vstd::slice::slice_subrange(self.data, start, end)
    }

    /// The next byte in scope, without consuming it.
    pub fn peek_u8(&self) -> (r: Result<u8>)
        requires
            self.wf(),
        ensures
            match spec_u8(self.spec_data(), self.spec_pos()) {
                Some(ve) => r matches Ok(v) && v == ve.0,
                None => r matches Err(e) && e.kind == ErrorKind::UnexpectedEof
                    && e.offset as int == self.spec_offset() + self.spec_pos(),
            },
    {
        if self.position < self.data.len() {
            Ok(*slice_index_get(self.data, self.position))
        } else {
            Err(BinaryReaderError::new(ErrorKind::UnexpectedEof, self.original_position()))
        }
    }

    /// Reads one byte.
    pub fn read_u8(&mut self) -> (r: Result<u8>)
        requires
            old(self).wf(),
        ensures
            final(self).wf(),
            final(self).spec_data() == old(self).spec_data(),
            final(self).spec_offset() == old(self).spec_offset(),
            final(self).spec_pos() >= old(self).spec_pos(),
            match spec_u8(old(self).spec_data(), old(self).spec_pos()) {
                Some(ve) => r matches Ok(v) && v == ve.0 && final(self).spec_pos() == ve.1,
                None => r matches Err(e) && e.kind == ErrorKind::UnexpectedEof
                    && e.offset as int == old(self).spec_offset() + old(self).spec_pos()
                    && *final(self) == *old(self),
            },
    {
        if self.position < self.data.len() {
            let b: u8 = *slice_index_get(self.data, self.position);
            self.position = self.position + 1;
            Ok(b)
        } else {
            Err(BinaryReaderError::new(ErrorKind::UnexpectedEof, self.original_position()))
        }
    }

    /// Reads an unsigned variable-length integer of at most `max_bytes`
    /// bytes, as a `u128`; the bound lemma keeps the accumulation far from
    /// overflow.
    fn read_leb(&mut self, max_bytes: u8) -> (r: Result<u128>)
        requires
            old(self).wf(),
            max_bytes <= 10,
        ensures
            final(self).wf(),
            final(self).spec_data() == old(self).spec_data(),
            final(self).spec_offset() == old(self).spec_offset(),
            final(self).spec_pos() >= old(self).spec_pos(),
            match spec_leb(old(self).spec_data(), old(self).spec_pos(), max_bytes as nat) {
                Some(ve) => r matches Ok(v) && v as int == ve.0 && final(self).spec_pos() == ve.1,
                None => r is Err,
            },
        decreases max_bytes,
    {
        if max_bytes == 0 {
            return Err(BinaryReaderError::new(ErrorKind::IntegerTooLong, self.original_position()));
        }
        let b: u8 = match self.read_u8() {
            Ok(b) => b,
            Err(e) => return Err(e),
        };
        if b < 128 {
            Ok(b as u128)
        } else {
            let ghost s = old(self).spec_data();
            let ghost sub_pos = self.spec_pos();
            let rest: u128 = match self.read_leb(max_bytes - 1) {
                Ok(v) => v,
                Err(e) => return Err(e),
            };
            proof {
                lemma_spec_leb_bound(s, sub_pos, (max_bytes - 1) as nat);
                lemma_pow2_le(7 * (max_bytes - 1) as nat, 63);
                lemma2_to64();
                lemma2_to64_rest();
                assert(rest < 0x8000_0000_0000_0000);
            }
            Ok((b - 128) as u128 + 128 * rest)
        }
    }

    /// Reads a signed variable-length integer of at most `max_bytes` bytes,
    /// as an `i128`.
    fn read_leb_signed(&mut self, max_bytes: u8) -> (r: Result<i128>)
        requires
            old(self).wf(),
            max_bytes <= 10,
        ensures
            final(self).wf(),
            final(self).spec_data() == old(self).spec_data(),
            final(self).spec_offset() == old(self).spec_offset(),
            final(self).spec_pos() >= old(self).spec_pos(),
            match spec_leb_signed(old(self).spec_data(), old(self).spec_pos(), max_bytes as nat) {
                Some(ve) => r matches Ok(v) && v as int == ve.0 && final(self).spec_pos() == ve.1,
                None => r is Err,
            },
        decreases max_bytes,
    {
        if max_bytes == 0 {
            return Err(BinaryReaderError::new(ErrorKind::IntegerTooLong, self.original_position()));
        }
        let b: u8 = match self.read_u8() {
            Ok(b) => b,
            Err(e) => return Err(e),
        };
        if b < 128 {
            if b >= 64 {
                Ok(b as i128 - 128)
            } else {
                Ok(b as i128)
            }
        } else {
            let ghost s = old(self).spec_data();
            let ghost sub_pos = self.spec_pos();
            let rest: i128 = match self.read_leb_signed(max_bytes - 1) {
                Ok(v) => v,
                Err(e) => return Err(e),
            };
            proof {
                lemma_spec_leb_signed_bound(s, sub_pos, (max_bytes - 1) as nat);
                lemma_pow2_le(7 * (max_bytes - 1) as nat, 63);
                lemma2_to64();
                lemma2_to64_rest();
                assert(-0x8000_0000_0000_0000 < rest < 0x8000_0000_0000_0000);
            }
            Ok((b - 128) as i128 + 128 * rest)
        }
    }

    /// Reads a 32-bit unsigned variable-length integer.
    pub fn read_var_u32(&mut self) -> (r: Result<u32>)
        requires
            old(self).wf(),
        ensures
            final(self).wf(),
            final(self).spec_data() == old(self).spec_data(),
            final(self).spec_offset() == old(self).spec_offset(),
            final(self).spec_pos() >= old(self).spec_pos(),
            match spec_var_u32(old(self).spec_data(), old(self).spec_pos()) {
                Some(ve) => r matches Ok(v) && v == ve.0 && final(self).spec_pos() == ve.1,
                None => r is Err,
            },
    {
        let v: u128 = match self.read_leb(5) {
            Ok(v) => v,
            Err(e) => return Err(e),
        };
        if v > u32::MAX as u128 {
            Err(BinaryReaderError::new(ErrorKind::IntegerTooLarge, self.original_position()))
        } else {
            Ok(v as u32)
        }
    }

    /// Reads a 64-bit unsigned variable-length integer.
    pub fn read_var_u64(&mut self) -> (r: Result<u64>)
        requires
            old(self).wf(),
        ensures
            final(self).wf(),
            final(self).spec_data() == old(self).spec_data(),
            final(self).spec_offset() == old(self).spec_offset(),
            final(self).spec_pos() >= old(self).spec_pos(),
            match spec_var_u64(old(self).spec_data(), old(self).spec_pos()) {
                Some(ve) => r matches Ok(v) && v == ve.0 && final(self).spec_pos() == ve.1,
                None => r is Err,
            },
    {
        let v: u128 = match self.read_leb(10) {
            Ok(v) => v,
            Err(e) => return Err(e),
        };
        if v > u64::MAX as u128 {
            Err(BinaryReaderError::new(ErrorKind::IntegerTooLarge, self.original_position()))
        } else {
            Ok(v as u64)
        }
    }

    /// Reads a 32-bit signed variable-length integer.
    pub fn read_var_i32(&mut self) -> (r: Result<i32>)
        requires
            old(self).wf(),
        ensures
            final(self).wf(),
            final(self).spec_data() == old(self).spec_data(),
            final(self).spec_offset() == old(self).spec_offset(),
            final(self).spec_pos() >= old(self).spec_pos(),
            match spec_var_i32(old(self).spec_data(), old(self).spec_pos()) {
                Some(ve) => r matches Ok(v) && v == ve.0 && final(self).spec_pos() == ve.1,
                None => r is Err,
            },
    {
        let v: i128 = match self.read_leb_signed(5) {
            Ok(v) => v,
            Err(e) => return Err(e),
        };
        if v < i32::MIN as i128 || v > i32::MAX as i128 {
            Err(BinaryReaderError::new(ErrorKind::IntegerTooLarge, self.original_position()))
        } else {
            Ok(v as i32)
        }
    }

    /// Reads a 64-bit signed variable-length integer.
    pub fn read_var_i64(&mut self) -> (r: Result<i64>)
        requires
            old(self).wf(),
        ensures
            final(self).wf(),
            final(self).spec_data() == old(self).spec_data(),
            final(self).spec_offset() == old(self).spec_offset(),
            final(self).spec_pos() >= old(self).spec_pos(),
            match spec_var_i64(old(self).spec_data(), old(self).spec_pos()) {
                Some(ve) => r matches Ok(v) && v == ve.0 && final(self).spec_pos() == ve.1,
                None => r is Err,
            },
    {
        let v: i128 = match self.read_leb_signed(10) {
            Ok(v) => v,
            Err(e) => return Err(e),
        };
        if v < i64::MIN as i128 || v > i64::MAX as i128 {
            Err(BinaryReaderError::new(ErrorKind::IntegerTooLarge, self.original_position()))
        } else {
            Ok(v as i64)
        }
    }

    /// Reads a 33-bit signed variable-length integer, widened to `i64`.
    pub fn read_var_s33(&mut self) -> (r: Result<i64>)
        requires
            old(self).wf(),
        ensures
            final(self).wf(),
            final(self).spec_data() == old(self).spec_data(),
            final(self).spec_offset() == old(self).spec_offset(),
            final(self).spec_pos() >= old(self).spec_pos(),
            match spec_var_s33(old(self).spec_data(), old(self).spec_pos()) {
                Some(ve) => r matches Ok(v) && v == ve.0 && final(self).spec_pos() == ve.1,
                None => r is Err,
            },
    {
        let v: i128 = match self.read_leb_signed(5) {
            Ok(v) => v,
            Err(e) => return Err(e),
        };
        if v < -0x1_0000_0000i128 || v > 0xFFFF_FFFFi128 {
            Err(BinaryReaderError::new(ErrorKind::IntegerTooLarge, self.original_position()))
        } else {
            Ok(v as i64)
        }
    }

    /// Reads `n` bytes as an unsigned little-endian integer, as a `u128`.
    pub(crate) fn read_le(&mut self, n: u8) -> (r: Result<u128>)
        requires
            old(self).wf(),
            n <= 16,
        ensures
            final(self).wf(),
            final(self).spec_data() == old(self).spec_data(),
            final(self).spec_offset() == old(self).spec_offset(),
            final(self).spec_pos() >= old(self).spec_pos(),
            match spec_le_bytes(old(self).spec_data(), old(self).spec_pos(), n as nat) {
                Some(ve) => r matches Ok(v) && v as int == ve.0 && final(self).spec_pos() == ve.1,
                None => r is Err,
            },
        decreases n,
    {
        if n == 0 {
            return Ok(0);
        }
        let b: u8 = match self.read_u8() {
            Ok(b) => b,
            Err(e) => return Err(e),
        };
        let ghost s = old(self).spec_data();
        let ghost sub_pos = self.spec_pos();
        let rest: u128 = match self.read_le(n - 1) {
            Ok(v) => v,
            Err(e) => return Err(e),
        };
        proof {
            lemma_spec_le_bytes_bound(s, sub_pos, (n - 1) as nat);
            lemma_pow2_le(8 * (n - 1) as nat, 120);
            lemma_pow2_adds(64, 56);
            lemma2_to64();
            lemma2_to64_rest();
            assert(pow2(120) == 0x1000000_00000000_00000000_00000000);
            assert(rest < 0x1000000_00000000_00000000_00000000);
        }
        Ok(b as u128 + 256 * rest)
    }

    /// Reads a 32-bit little-endian fixed-width integer.
    pub fn read_u32_le(&mut self) -> (r: Result<u32>)
        requires
            old(self).wf(),
        ensures
            final(self).wf(),
            final(self).spec_data() == old(self).spec_data(),
            final(self).spec_offset() == old(self).spec_offset(),
            final(self).spec_pos() >= old(self).spec_pos(),
            match spec_u32_le(old(self).spec_data(), old(self).spec_pos()) {
                Some(ve) => r matches Ok(v) && v == ve.0 && final(self).spec_pos() == ve.1,
                None => r is Err,
            },
    {
        let ghost s = old(self).spec_data();
        let ghost p = old(self).spec_pos();
        let v: u128 = match self.read_le(4) {
            Ok(v) => v,
            Err(e) => return Err(e),
        };
        proof {
            lemma_spec_le_bytes_bound(s, p, 4);
            lemma2_to64();
        }
        Ok(v as u32)
    }

    /// Reads a 64-bit little-endian fixed-width integer.
    pub fn read_u64_le(&mut self) -> (r: Result<u64>)
        requires
            old(self).wf(),
        ensures
            final(self).wf(),
            final(self).spec_data() == old(self).spec_data(),
            final(self).spec_offset() == old(self).spec_offset(),
            final(self).spec_pos() >= old(self).spec_pos(),
            match spec_u64_le(old(self).spec_data(), old(self).spec_pos()) {
                Some(ve) => r matches Ok(v) && v == ve.0 && final(self).spec_pos() == ve.1,
                None => r is Err,
            },
    {
        let ghost s = old(self).spec_data();
        let ghost p = old(self).spec_pos();
        let v: u128 = match self.read_le(8) {
            Ok(v) => v,
            Err(e) => return Err(e),
        };
        proof {
            lemma_spec_le_bytes_bound(s, p, 8);
            lemma2_to64();
        }
        Ok(v as u64)
    }
}

} // verus!
