//! Immediate value types carried as instruction payloads, and the cursor
//! operations that decode them.

use vstd::prelude::*;
use crate::error::{BinaryReaderError, ErrorKind, Result};
use crate::reader::{
    BinaryReader, spec_u8, spec_var_u32, spec_var_u64, spec_var_s33, spec_u32_le, spec_u64_le,
    spec_le_bytes,
};

verus! {

/// A concrete value type, as encoded in a block-type or select immediate.
#[derive(Debug, Copy, Clone, PartialEq, Eq)]
pub enum ValType {
    /// A 32-bit integer.
    I32,
    /// A 64-bit integer.
    I64,
    /// A 32-bit float.
    F32,
    /// A 64-bit float.
    F64,
    /// A 128-bit vector.
    V128,
    /// A reference to a function.
    FuncRef,
    /// A reference to an external object.
    ExternRef,
}

/// The input/output signature of a structured control-flow region.
#[derive(Debug, Copy, Clone, PartialEq, Eq)]
pub enum BlockType {
    /// The block neither consumes nor produces values.
    Empty,
    /// The block produces a single value of the given type.
    Type(ValType),
    /// The block is described by a function type, given as an unresolved
    /// index into the module's function-type table.
    FuncType(u32),
}

/// A memory immediate in a memory instruction.
#[derive(Debug, Copy, Clone, Eq, PartialEq)]
pub struct MemArg {
    /// Alignment, stored as `n` where the actual alignment is `2^n`.
    pub align: u8,
    /// Maximum alignment legal for the instruction this immediate belongs
    /// to, stored as `n` where the actual alignment is `2^n`. Not read from
    /// the input: supplied by the decoder per opcode.
    pub max_align: u8,
    /// A fixed byte offset added to the address operand.
    pub offset: u64,
    /// The index of the memory this immediate addresses.
    pub memory: u32,
}

/// An IEEE binary32 immediate, held as the exact bit pattern. Every bit
/// pattern round-trips unchanged, NaN payloads included.
#[derive(Copy, Clone, Debug, Eq, PartialEq, Hash)]
pub struct Ieee32(pub(crate) u32);

impl Ieee32 {
    /// The bit pattern, as a spec-level value.
    pub closed spec fn spec_bits(&self) -> u32 {
        self.0
    }

    /// Wraps a bit pattern.
    pub fn new(bits: u32) -> (r: Ieee32)
        ensures
            r.spec_bits() == bits,
    {
        Ieee32(bits)
    }

    /// Gets the underlying bits of the 32-bit float.
    pub fn bits(self) -> (r: u32)
        ensures
            r == self.spec_bits(),
    {
        self.0
    }
}

/// An IEEE binary64 immediate, held as the exact bit pattern. Every bit
/// pattern round-trips unchanged, NaN payloads included.
#[derive(Copy, Clone, Debug, Eq, PartialEq, Hash)]
pub struct Ieee64(pub(crate) u64);

impl Ieee64 {
    /// The bit pattern, as a spec-level value.
    pub closed spec fn spec_bits(&self) -> u64 {
        self.0
    }

    /// Wraps a bit pattern.
    pub fn new(bits: u64) -> (r: Ieee64)
        ensures
            r.spec_bits() == bits,
    {
        Ieee64(bits)
    }

    /// Gets the underlying bits of the 64-bit float.
    pub fn bits(self) -> (r: u64)
        ensures
            r == self.spec_bits(),
    {
        self.0
    }
}

/// A 128-bit vector immediate, held as its sixteen bytes in memory order
/// (little endian).
#[derive(Copy, Clone, Debug, Eq, PartialEq, Hash)]
pub struct V128(pub(crate) [u8; 16]);

/// The little-endian value of sixteen bytes, reinterpreted as a signed
/// (two's complement) 128-bit integer.
pub open spec fn spec_i128_of_bytes(s: Seq<u8>) -> int {
    let le = match spec_le_bytes(s, 0, 16) {
        Some(ve) => ve.0,
        None => 0,
    };
    if le <= i128::MAX as int {
        le
    } else {
        le - 0x1_00000000_00000000_00000000_00000000
    }
}

impl V128 {
    /// The sixteen bytes, as a spec-level sequence.
    pub closed spec fn spec_bytes(&self) -> Seq<u8> {
        self.0@
    }

    /// Wraps sixteen bytes.
    pub fn new(bytes: [u8; 16]) -> (r: V128)
        ensures
            r.spec_bytes() == bytes@,
    {
        V128(bytes)
    }

    /// Gets the bytes of the vector value.
    pub fn bytes(&self) -> (r: &[u8; 16])
        ensures
            r@ == self.spec_bytes(),
    {
        &self.0
    }

    /// Gets a signed 128-bit integer value from the vector's bytes.
    pub fn i128(&self) -> (r: i128)
        ensures
            r as int == spec_i128_of_bytes(self.spec_bytes()),
    {
        let slice: &[u8] = self.0.as_slice();
        let mut rd: BinaryReader = BinaryReader::new(slice, 0);
        proof {
            crate::reader::lemma_spec_le_bytes_some(slice@, 0, 16);
        }
        let v: u128 = match rd.read_le(16) {
            Ok(v) => v,
            Err(_) => {
                proof {
                    assert(false);
                }
                0
            },
        };
        if v <= 0x7FFFFFFF_FFFFFFFF_FFFFFFFF_FFFFFFFFu128 {
            v as i128
        } else {
            let diff: u128 = u128::MAX - v;
            -(diff as i128) - 1
        }
    }
}

/// The memory ordering of an atomic instruction's immediate.
#[derive(Copy, Clone, Debug, Eq, PartialEq, Hash)]
pub enum Ordering {
    /// A load acquires; a store releases.
    AcqRel,
    /// Like `AcqRel`, and all threads see all sequentially consistent
    /// operations in the same order.
    SeqCst,
}

// ---------------------------------------------------------------------------
// Spec-level decoding of the immediates.
// ---------------------------------------------------------------------------

/// The value type a single encoded byte stands for, if any.
pub open spec fn spec_val_type(b: u8) -> Option<ValType> {
    if b == 0x7F {
        Some(ValType::I32)
    } else if b == 0x7E {
        Some(ValType::I64)
    } else if b == 0x7D {
        Some(ValType::F32)
    } else if b == 0x7C {
        Some(ValType::F64)
    } else if b == 0x7B {
        Some(ValType::V128)
    } else if b == 0x70 {
        Some(ValType::FuncRef)
    } else if b == 0x6F {
        Some(ValType::ExternRef)
    } else {
        None
    }
}

/// A block type: `0x40` for empty, a value-type byte for a single result, or
/// a non-negative 33-bit signed integer for a function-type index.
pub open spec fn spec_block_type(s: Seq<u8>, pos: int) -> Option<(BlockType, int)> {
    match spec_u8(s, pos) {
        None => None,
        Some((b, p1)) => if b == 0x40 {
            Some((BlockType::Empty, p1))
        } else if spec_val_type(b) is Some {
            Some((BlockType::Type(spec_val_type(b)->Some_0), p1))
        } else {
            match spec_var_s33(s, pos) {
                Some((v, end)) => if v >= 0 {
                    Some((BlockType::FuncType(v as u32), end))
                } else {
                    None
                },
                None => None,
            }
        },
    }
}

/// A memory immediate: a flag word holding the alignment and, if bit six is
/// set, a following memory index; then a 64-bit byte offset. Flag bits other
/// than the alignment and the memory-index marker are malformed.
pub open spec fn spec_memarg(s: Seq<u8>, pos: int, max_align: u8) -> Option<(MemArg, int)> {
    match spec_var_u32(s, pos) {
        None => None,
        Some((flags, p1)) => {
            let mem_part: Option<(u32, u32, int)> = if flags & 0x40 != 0 {
                match spec_var_u32(s, p1) {
                    None => None,
                    Some((m, p2)) => Some((flags & !0x40u32, m, p2)),
                }
            } else {
                Some((flags, 0u32, p1))
            };
            match mem_part {
                None => None,
                Some((cleaned, memory, p2)) => if cleaned >= 64 {
                    None
                } else {
                    match spec_var_u64(s, p2) {
                        None => None,
                        Some((offset, p3)) => Some(
                            (MemArg { align: cleaned as u8, max_align, offset, memory }, p3),
                        ),
                    }
                },
            }
        },
    }
}

/// A memory ordering: one byte, `0x00` for sequentially consistent, `0x01`
/// for acquire-release.
pub open spec fn spec_ordering(s: Seq<u8>, pos: int) -> Option<(Ordering, int)> {
    match spec_u8(s, pos) {
        None => None,
        Some((b, p1)) => if b == 0x00 {
            Some((Ordering::SeqCst, p1))
        } else if b == 0x01 {
            Some((Ordering::AcqRel, p1))
        } else {
            None
        },
    }
}

// ---------------------------------------------------------------------------
// The executable decoders, on the cursor.
// ---------------------------------------------------------------------------

/// The value type a single encoded byte stands for, if any.
pub fn val_type_from_byte(b: u8) -> (r: Option<ValType>)
    ensures
        r == spec_val_type(b),
{
    match b {
        0x7F => Some(ValType::I32),
        0x7E => Some(ValType::I64),
        0x7D => Some(ValType::F32),
        0x7C => Some(ValType::F64),
        0x7B => Some(ValType::V128),
        0x70 => Some(ValType::FuncRef),
        0x6F => Some(ValType::ExternRef),
        _ => None,
    }
}

impl<'a> BinaryReader<'a> {
    /// Reads a block-type descriptor.
    pub fn read_block_type(&mut self) -> (r: Result<BlockType>)
        requires
            old(self).wf(),
        ensures
            final(self).wf(),
            final(self).spec_data() == old(self).spec_data(),
            final(self).spec_offset() == old(self).spec_offset(),
            final(self).spec_pos() >= old(self).spec_pos(),
            match spec_block_type(old(self).spec_data(), old(self).spec_pos()) {
                Some(ve) => r matches Ok(v) && v == ve.0 && final(self).spec_pos() == ve.1,
                None => r is Err,
            },
    {
        let b: u8 = match self.peek_u8() {
            Ok(b) => b,
            Err(e) => return Err(e),
        };
        if b == 0x40 {
            let _ = self.read_u8();
            return Ok(BlockType::Empty);
        }
        match val_type_from_byte(b) {
            Some(vt) => {
                let _ = self.read_u8();
                Ok(BlockType::Type(vt))
            },
            None => {
                let v: i64 = match self.read_var_s33() {
                    Ok(v) => v,
                    Err(e) => return Err(e),
                };
                if v < 0 {
                    Err(BinaryReaderError::new(
                        ErrorKind::InvalidLeadingByte { byte: b, context: "block type" },
                        self.original_position(),
                    ))
                } else {
                    Ok(BlockType::FuncType(v as u32))
                }
            },
        }
    }

    /// Reads a memory immediate; `max_align` is the per-opcode constant
    /// stored alongside what the input encodes.
    pub fn read_memarg(&mut self, max_align: u8) -> (r: Result<MemArg>)
        requires
            old(self).wf(),
        ensures
            final(self).wf(),
            final(self).spec_data() == old(self).spec_data(),
            final(self).spec_offset() == old(self).spec_offset(),
            final(self).spec_pos() >= old(self).spec_pos(),
            match spec_memarg(old(self).spec_data(), old(self).spec_pos(), max_align) {
                Some(ve) => r matches Ok(v) && v == ve.0 && final(self).spec_pos() == ve.1,
                None => r is Err,
            },
    {
        let flags: u32 = match self.read_var_u32() {
            Ok(v) => v,
            Err(e) => return Err(e),
        };
        let memory: u32 = if flags & 0x40 != 0 {
            match self.read_var_u32() {
                Ok(m) => m,
                Err(e) => return Err(e),
            }
        } else {
            0
        };
        let cleaned: u32 = if flags & 0x40 != 0 {
            flags & !0x40u32
        } else {
            flags
        };
        if cleaned >= 64 {
            return Err(BinaryReaderError::new(
                ErrorKind::MalformedMemFlags,
                self.original_position(),
            ));
        }
        let offset: u64 = match self.read_var_u64() {
            Ok(v) => v,
            Err(e) => return Err(e),
        };
        Ok(MemArg { align: cleaned as u8, max_align, offset, memory })
    }

    /// Reads a memory-ordering tag.
    pub fn read_ordering(&mut self) -> (r: Result<Ordering>)
        requires
            old(self).wf(),
        ensures
            final(self).wf(),
            final(self).spec_data() == old(self).spec_data(),
            final(self).spec_offset() == old(self).spec_offset(),
            final(self).spec_pos() >= old(self).spec_pos(),
            match spec_ordering(old(self).spec_data(), old(self).spec_pos()) {
                Some(ve) => r matches Ok(v) && v == ve.0 && final(self).spec_pos() == ve.1,
                None => r is Err,
            },
            (spec_ordering(old(self).spec_data(), old(self).spec_pos()) is None
                && spec_u8(old(self).spec_data(), old(self).spec_pos()) is Some)
                ==> (r matches Err(e)
                    && e.kind == (ErrorKind::InvalidLeadingByte {
                        byte: spec_u8(old(self).spec_data(), old(self).spec_pos())->Some_0.0,
                        context: "memory ordering",
                    })
                    && e.offset as int == old(self).spec_offset() + old(self).spec_pos()),
    {
        let pos: usize = self.original_position();
        let b: u8 = match self.read_u8() {
            Ok(b) => b,
            Err(e) => return Err(e),
        };
        match b {
            0x00 => Ok(Ordering::SeqCst),
            0x01 => Ok(Ordering::AcqRel),
            _ => Err(BinaryReaderError::new(
                ErrorKind::InvalidLeadingByte { byte: b, context: "memory ordering" },
                pos,
            )),
        }
    }

    /// Reads a 32-bit float immediate as its exact bit pattern.
    pub fn read_f32(&mut self) -> (r: Result<Ieee32>)
        requires
            old(self).wf(),
        ensures
            final(self).wf(),
            final(self).spec_data() == old(self).spec_data(),
            final(self).spec_offset() == old(self).spec_offset(),
            final(self).spec_pos() >= old(self).spec_pos(),
            match spec_u32_le(old(self).spec_data(), old(self).spec_pos()) {
                Some(ve) => r matches Ok(v) && v.spec_bits() == ve.0
                    && final(self).spec_pos() == ve.1,
                None => r is Err,
            },
    {
        let bits: u32 = match self.read_u32_le() {
            Ok(v) => v,
            Err(e) => return Err(e),
        };
        Ok(Ieee32(bits))
    }

    /// Reads a 64-bit float immediate as its exact bit pattern.
    pub fn read_f64(&mut self) -> (r: Result<Ieee64>)
        requires
            old(self).wf(),
        ensures
            final(self).wf(),
            final(self).spec_data() == old(self).spec_data(),
            final(self).spec_offset() == old(self).spec_offset(),
            final(self).spec_pos() >= old(self).spec_pos(),
            match spec_u64_le(old(self).spec_data(), old(self).spec_pos()) {
                Some(ve) => r matches Ok(v) && v.spec_bits() == ve.0
                    && final(self).spec_pos() == ve.1,
                None => r is Err,
            },
    {
        let bits: u64 = match self.read_u64_le() {
            Ok(v) => v,
            Err(e) => return Err(e),
        };
        Ok(Ieee64(bits))
    }

    /// Reads a 128-bit vector immediate: sixteen bytes in memory order.
    pub fn read_v128(&mut self) -> (r: Result<V128>)
        requires
            old(self).wf(),
        ensures
            final(self).wf(),
            final(self).spec_data() == old(self).spec_data(),
            final(self).spec_offset() == old(self).spec_offset(),
            final(self).spec_pos() >= old(self).spec_pos(),
            if old(self).spec_pos() + 16 <= old(self).spec_data().len() {
                r matches Ok(v)
                    && v.spec_bytes() == old(self).spec_data().subrange(
                        old(self).spec_pos(),
                        old(self).spec_pos() + 16,
                    )
                    && final(self).spec_pos() == old(self).spec_pos() + 16
            } else {
                r is Err
            },
    {
        let b0: u8 = match self.read_u8() { Ok(b) => b, Err(e) => return Err(e) };
        let b1: u8 = match self.read_u8() { Ok(b) => b, Err(e) => return Err(e) };
        let b2: u8 = match self.read_u8() { Ok(b) => b, Err(e) => return Err(e) };
        let b3: u8 = match self.read_u8() { Ok(b) => b, Err(e) => return Err(e) };
        let b4: u8 = match self.read_u8() { Ok(b) => b, Err(e) => return Err(e) };
        let b5: u8 = match self.read_u8() { Ok(b) => b, Err(e) => return Err(e) };
        let b6: u8 = match self.read_u8() { Ok(b) => b, Err(e) => return Err(e) };
        let b7: u8 = match self.read_u8() { Ok(b) => b, Err(e) => return Err(e) };
        let b8: u8 = match self.read_u8() { Ok(b) => b, Err(e) => return Err(e) };
        let b9: u8 = match self.read_u8() { Ok(b) => b, Err(e) => return Err(e) };
        let b10: u8 = match self.read_u8() { Ok(b) => b, Err(e) => return Err(e) };
        let b11: u8 = match self.read_u8() { Ok(b) => b, Err(e) => return Err(e) };
        let b12: u8 = match self.read_u8() { Ok(b) => b, Err(e) => return Err(e) };
        let b13: u8 = match self.read_u8() { Ok(b) => b, Err(e) => return Err(e) };
        let b14: u8 = match self.read_u8() { Ok(b) => b, Err(e) => return Err(e) };
        let b15: u8 = match self.read_u8() { Ok(b) => b, Err(e) => return Err(e) };
        let arr: [u8; 16] = [b0, b1, b2, b3, b4, b5, b6, b7, b8, b9, b10, b11, b12, b13, b14, b15];
        proof {
            assert(arr@ =~= old(self).spec_data().subrange(
                old(self).spec_pos(),
                old(self).spec_pos() + 16,
            ));
        }
        Ok(V128(arr))
    }
}

} // verus!
