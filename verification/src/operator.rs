//! The operator model — the tagged union over every supported instruction
//! form — and the decoder that turns a positioned cursor into exactly one
//! `Operator`.
//!
//! Decoding reads one opcode byte; the escape bytes `0xFC`, `0xFD` and
//! `0xFE` introduce extended opcode spaces via a following variable-length
//! sub-opcode. Each form's immediates are then read in the fixed order the
//! format gives for it. The whole grammar is restated as the spec function
//! [`spec_read_operator`], and the decoder is proved to return exactly the
//! instruction those bytes encode, or to fail exactly on malformed input.

use vstd::prelude::*;
use crate::error::{BinaryReaderError, ErrorKind, Result};
use crate::reader::{BinaryReader, spec_u8, spec_var_u32, spec_var_u64, spec_var_i32, spec_var_i64, spec_u32_le, spec_u64_le, spec_le_bytes};
use crate::immediates::{
    BlockType, MemArg, Ieee32, Ieee64, V128, Ordering, spec_block_type, spec_memarg,
    spec_ordering,
};
use crate::tables::{TryTable, ResumeTable, Catch, Handle, spec_try_table, spec_resume_table};
use crate::branch::{BrTable, spec_br_table};

verus! {

/// Instructions, with each variant's fields holding exactly that
/// instruction's immediates.
#[derive(Debug, Clone, PartialEq, Eq)]
pub enum Operator<'a> {
    Unreachable,
    Nop,
    Block { blockty: BlockType },
    Loop { blockty: BlockType },
    If { blockty: BlockType },
    Else,
    End,
    Br { relative_depth: u32 },
    BrIf { relative_depth: u32 },
    BrTable { targets: BrTable<'a> },
    Return,
    Call { function_index: u32 },
    CallIndirect { type_index: u32, table_index: u32 },
    Drop,
    Select,
    TryTable { try_table: TryTable },
    LocalGet { local_index: u32 },
    LocalSet { local_index: u32 },
    LocalTee { local_index: u32 },
    GlobalGet { global_index: u32 },
    GlobalSet { global_index: u32 },
    I32Load { memarg: MemArg },
    I64Load { memarg: MemArg },
    I32Store { memarg: MemArg },
    I64Store { memarg: MemArg },
    MemorySize { mem: u32 },
    MemoryGrow { mem: u32 },
    I32Const { value: i32 },
    I64Const { value: i64 },
    F32Const { value: Ieee32 },
    F64Const { value: Ieee64 },
    I32Eqz,
    I32Add,
    I32Sub,
    I64Add,
    Resume { cont_type_index: u32, resume_table: ResumeTable },
    ResumeThrow { cont_type_index: u32, tag_index: u32, resume_table: ResumeTable },
    DataDrop { data_index: u32 },
    MemoryCopy { dst_mem: u32, src_mem: u32 },
    MemoryFill { mem: u32 },
    V128Load { memarg: MemArg },
    V128Const { value: V128 },
    I32AtomicLoad { memarg: MemArg },
    GlobalAtomicGet { ordering: Ordering, global_index: u32 },
    GlobalAtomicSet { ordering: Ordering, global_index: u32 },
}

/// The spec-level shape of a decoded instruction: the same variants as
/// [`Operator`], with each buffer-borrowing or allocating payload replaced
/// by its mathematical view.
pub enum SpecOperator {
    Unreachable,
    Nop,
    Block { blockty: BlockType },
    Loop { blockty: BlockType },
    If { blockty: BlockType },
    Else,
    End,
    Br { relative_depth: u32 },
    BrIf { relative_depth: u32 },
    BrTable { cnt: u32, default: u32, span: Seq<u8> },
    Return,
    Call { function_index: u32 },
    CallIndirect { type_index: u32, table_index: u32 },
    Drop,
    Select,
    TryTable { ty: BlockType, catches: Seq<Catch> },
    LocalGet { local_index: u32 },
    LocalSet { local_index: u32 },
    LocalTee { local_index: u32 },
    GlobalGet { global_index: u32 },
    GlobalSet { global_index: u32 },
    I32Load { memarg: MemArg },
    I64Load { memarg: MemArg },
    I32Store { memarg: MemArg },
    I64Store { memarg: MemArg },
    MemorySize { mem: u32 },
    MemoryGrow { mem: u32 },
    I32Const { value: i32 },
    I64Const { value: i64 },
    F32Const { bits: u32 },
    F64Const { bits: u64 },
    I32Eqz,
    I32Add,
    I32Sub,
    I64Add,
    Resume { cont_type_index: u32, resume_table: Seq<Handle> },
    ResumeThrow { cont_type_index: u32, tag_index: u32, resume_table: Seq<Handle> },
    DataDrop { data_index: u32 },
    MemoryCopy { dst_mem: u32, src_mem: u32 },
    MemoryFill { mem: u32 },
    V128Load { memarg: MemArg },
    V128Const { bytes: Seq<u8> },
    I32AtomicLoad { memarg: MemArg },
    GlobalAtomicGet { ordering: Ordering, global_index: u32 },
    GlobalAtomicSet { ordering: Ordering, global_index: u32 },
}

impl<'a> View for Operator<'a> {
    type V = SpecOperator;

    open spec fn view(&self) -> SpecOperator {
        match self {
            Operator::Unreachable => SpecOperator::Unreachable,
            Operator::Nop => SpecOperator::Nop,
            Operator::Block { blockty } => SpecOperator::Block { blockty: *blockty },
            Operator::Loop { blockty } => SpecOperator::Loop { blockty: *blockty },
            Operator::If { blockty } => SpecOperator::If { blockty: *blockty },
            Operator::Else => SpecOperator::Else,
            Operator::End => SpecOperator::End,
            Operator::Br { relative_depth } => SpecOperator::Br { relative_depth: *relative_depth },
            Operator::BrIf { relative_depth } => SpecOperator::BrIf { relative_depth: *relative_depth },
            Operator::BrTable { targets } => SpecOperator::BrTable {
                cnt: targets.spec_cnt(),
                default: targets.spec_default(),
                span: targets.spec_span(),
            },
            Operator::Return => SpecOperator::Return,
            Operator::Call { function_index } => SpecOperator::Call { function_index: *function_index },
            Operator::CallIndirect { type_index, table_index } => SpecOperator::CallIndirect {
                type_index: *type_index,
                table_index: *table_index,
            },
            Operator::Drop => SpecOperator::Drop,
            Operator::Select => SpecOperator::Select,
            Operator::TryTable { try_table } => SpecOperator::TryTable {
                ty: try_table.ty,
                catches: try_table.catches@,
            },
            Operator::LocalGet { local_index } => SpecOperator::LocalGet { local_index: *local_index },
            Operator::LocalSet { local_index } => SpecOperator::LocalSet { local_index: *local_index },
            Operator::LocalTee { local_index } => SpecOperator::LocalTee { local_index: *local_index },
            Operator::GlobalGet { global_index } => SpecOperator::GlobalGet { global_index: *global_index },
            Operator::GlobalSet { global_index } => SpecOperator::GlobalSet { global_index: *global_index },
            Operator::I32Load { memarg } => SpecOperator::I32Load { memarg: *memarg },
            Operator::I64Load { memarg } => SpecOperator::I64Load { memarg: *memarg },
            Operator::I32Store { memarg } => SpecOperator::I32Store { memarg: *memarg },
            Operator::I64Store { memarg } => SpecOperator::I64Store { memarg: *memarg },
            Operator::MemorySize { mem } => SpecOperator::MemorySize { mem: *mem },
            Operator::MemoryGrow { mem } => SpecOperator::MemoryGrow { mem: *mem },
            Operator::I32Const { value } => SpecOperator::I32Const { value: *value },
            Operator::I64Const { value } => SpecOperator::I64Const { value: *value },
            Operator::F32Const { value } => SpecOperator::F32Const { bits: value.spec_bits() },
            Operator::F64Const { value } => SpecOperator::F64Const { bits: value.spec_bits() },
            Operator::I32Eqz => SpecOperator::I32Eqz,
            Operator::I32Add => SpecOperator::I32Add,
            Operator::I32Sub => SpecOperator::I32Sub,
            Operator::I64Add => SpecOperator::I64Add,
            Operator::Resume { cont_type_index, resume_table } => SpecOperator::Resume {
                cont_type_index: *cont_type_index,
                resume_table: resume_table.handlers@,
            },
            Operator::ResumeThrow { cont_type_index, tag_index, resume_table } => SpecOperator::ResumeThrow {
                cont_type_index: *cont_type_index,
                tag_index: *tag_index,
                resume_table: resume_table.handlers@,
            },
            Operator::DataDrop { data_index } => SpecOperator::DataDrop { data_index: *data_index },
            Operator::MemoryCopy { dst_mem, src_mem } => SpecOperator::MemoryCopy {
                dst_mem: *dst_mem,
                src_mem: *src_mem,
            },
            Operator::MemoryFill { mem } => SpecOperator::MemoryFill { mem: *mem },
            Operator::V128Load { memarg } => SpecOperator::V128Load { memarg: *memarg },
            Operator::V128Const { value } => SpecOperator::V128Const { bytes: value.spec_bytes() },
            Operator::I32AtomicLoad { memarg } => SpecOperator::I32AtomicLoad { memarg: *memarg },
            Operator::GlobalAtomicGet { ordering, global_index } => SpecOperator::GlobalAtomicGet {
                ordering: *ordering,
                global_index: *global_index,
            },
            Operator::GlobalAtomicSet { ordering, global_index } => SpecOperator::GlobalAtomicSet {
                ordering: *ordering,
                global_index: *global_index,
            },
        }
    }
}

impl<'a> Operator<'a> {
    /// Well-formedness of the payloads: a branch table keeps absolute
    /// offsets within `usize`.
    pub open spec fn wf(&self) -> bool {
        match self {
            Operator::BrTable { targets } => targets.wf(),
            _ => true,
        }
    }
}

// ---------------------------------------------------------------------------
// The spec-level decode of one instruction.
// ---------------------------------------------------------------------------

/// The `0xFC` extended opcode space, decoded after its escape byte.
pub open spec fn spec_op_fc(s: Seq<u8>, pos: int) -> Option<(SpecOperator, int)> {
    match spec_var_u32(s, pos) {
        None => None,
        Some((sub, p1)) => if sub == 9 {
            match spec_var_u32(s, p1) {
                None => None,
                Some((data_index, p2)) => Some((SpecOperator::DataDrop { data_index }, p2)),
            }
        } else if sub == 10 {
            match spec_var_u32(s, p1) {
                None => None,
                Some((dst_mem, p2)) => match spec_var_u32(s, p2) {
                    None => None,
                    Some((src_mem, p3)) => Some((SpecOperator::MemoryCopy { dst_mem, src_mem }, p3)),
                },
            }
        } else if sub == 11 {
            match spec_var_u32(s, p1) {
                None => None,
                Some((mem, p2)) => Some((SpecOperator::MemoryFill { mem }, p2)),
            }
        } else {
            None
        },
    }
}

/// The `0xFD` (vector) extended opcode space, decoded after its escape byte.
pub open spec fn spec_op_fd(s: Seq<u8>, pos: int) -> Option<(SpecOperator, int)> {
    match spec_var_u32(s, pos) {
        None => None,
        Some((sub, p1)) => if sub == 0 {
            match spec_memarg(s, p1, 4) {
                None => None,
                Some((memarg, p2)) => Some((SpecOperator::V128Load { memarg }, p2)),
            }
        } else if sub == 12 {
            if p1 + 16 <= s.len() {
                Some((SpecOperator::V128Const { bytes: s.subrange(p1, p1 + 16) }, p1 + 16))
            } else {
                None
            }
        } else {
            None
        },
    }
}

/// The `0xFE` (atomics) extended opcode space, decoded after its escape
/// byte.
pub open spec fn spec_op_fe(s: Seq<u8>, pos: int) -> Option<(SpecOperator, int)> {
    match spec_var_u32(s, pos) {
        None => None,
        Some((sub, p1)) => if sub == 0x10 {
            match spec_memarg(s, p1, 2) {
                None => None,
                Some((memarg, p2)) => Some((SpecOperator::I32AtomicLoad { memarg }, p2)),
            }
        } else if sub == 0x4F || sub == 0x50 {
            match spec_ordering(s, p1) {
                None => None,
                Some((ordering, p2)) => match spec_var_u32(s, p2) {
                    None => None,
                    Some((global_index, p3)) => if sub == 0x4F {
                        Some((SpecOperator::GlobalAtomicGet { ordering, global_index }, p3))
                    } else {
                        Some((SpecOperator::GlobalAtomicSet { ordering, global_index }, p3))
                    },
                },
            }
        } else {
            None
        },
    }
}

/// The single-byte opcode space, decoded after the opcode byte `b`.
pub open spec fn spec_op_base(b: u8, s: Seq<u8>, pos: int) -> Option<(SpecOperator, int)> {
    if b == 0x00 {
        Some((SpecOperator::Unreachable, pos))
    } else if b == 0x01 {
        Some((SpecOperator::Nop, pos))
    } else if b == 0x02 || b == 0x03 || b == 0x04 {
        match spec_block_type(s, pos) {
            None => None,
            Some((blockty, p1)) => if b == 0x02 {
                Some((SpecOperator::Block { blockty }, p1))
            } else if b == 0x03 {
                Some((SpecOperator::Loop { blockty }, p1))
            } else {
                Some((SpecOperator::If { blockty }, p1))
            },
        }
    } else if b == 0x05 {
        Some((SpecOperator::Else, pos))
    } else if b == 0x0b {
        Some((SpecOperator::End, pos))
    } else if b == 0x0c || b == 0x0d {
        match spec_var_u32(s, pos) {
            None => None,
            Some((relative_depth, p1)) => if b == 0x0c {
                Some((SpecOperator::Br { relative_depth }, p1))
            } else {
                Some((SpecOperator::BrIf { relative_depth }, p1))
            },
        }
    } else if b == 0x0e {
        match spec_br_table(s, pos) {
            None => None,
            Some((t, end)) => Some(
                (SpecOperator::BrTable { cnt: t.0, default: t.1, span: s.subrange(t.2, t.3) }, end),
            ),
        }
    } else if b == 0x0f {
        Some((SpecOperator::Return, pos))
    } else if b == 0x10 {
        match spec_var_u32(s, pos) {
            None => None,
            Some((function_index, p1)) => Some((SpecOperator::Call { function_index }, p1)),
        }
    } else if b == 0x11 {
        match spec_var_u32(s, pos) {
            None => None,
            Some((type_index, p1)) => match spec_var_u32(s, p1) {
                None => None,
                Some((table_index, p2)) => Some(
                    (SpecOperator::CallIndirect { type_index, table_index }, p2),
                ),
            },
        }
    } else if b == 0x1a {
        Some((SpecOperator::Drop, pos))
    } else if b == 0x1b {
        Some((SpecOperator::Select, pos))
    } else if b == 0x1f {
        match spec_try_table(s, pos) {
            None => None,
            Some((t, end)) => Some((SpecOperator::TryTable { ty: t.0, catches: t.1 }, end)),
        }
    } else if b == 0x20 || b == 0x21 || b == 0x22 {
        match spec_var_u32(s, pos) {
            None => None,
            Some((local_index, p1)) => if b == 0x20 {
                Some((SpecOperator::LocalGet { local_index }, p1))
            } else if b == 0x21 {
                Some((SpecOperator::LocalSet { local_index }, p1))
            } else {
                Some((SpecOperator::LocalTee { local_index }, p1))
            },
        }
    } else if b == 0x23 || b == 0x24 {
        match spec_var_u32(s, pos) {
            None => None,
            Some((global_index, p1)) => if b == 0x23 {
                Some((SpecOperator::GlobalGet { global_index }, p1))
            } else {
                Some((SpecOperator::GlobalSet { global_index }, p1))
            },
        }
    } else if b == 0x28 || b == 0x36 {
        match spec_memarg(s, pos, 2) {
            None => None,
            Some((memarg, p1)) => if b == 0x28 {
                Some((SpecOperator::I32Load { memarg }, p1))
            } else {
                Some((SpecOperator::I32Store { memarg }, p1))
            },
        }
    } else if b == 0x29 || b == 0x37 {
        match spec_memarg(s, pos, 3) {
            None => None,
            Some((memarg, p1)) => if b == 0x29 {
                Some((SpecOperator::I64Load { memarg }, p1))
            } else {
                Some((SpecOperator::I64Store { memarg }, p1))
            },
        }
    } else if b == 0x3f || b == 0x40 {
        match spec_var_u32(s, pos) {
            None => None,
            Some((mem, p1)) => if b == 0x3f {
                Some((SpecOperator::MemorySize { mem }, p1))
            } else {
                Some((SpecOperator::MemoryGrow { mem }, p1))
            },
        }
    } else if b == 0x41 {
        match spec_var_i32(s, pos) {
            None => None,
            Some((value, p1)) => Some((SpecOperator::I32Const { value }, p1)),
        }
    } else if b == 0x42 {
        match spec_var_i64(s, pos) {
            None => None,
            Some((value, p1)) => Some((SpecOperator::I64Const { value }, p1)),
        }
    } else if b == 0x43 {
        match spec_u32_le(s, pos) {
            None => None,
            Some((bits, p1)) => Some((SpecOperator::F32Const { bits }, p1)),
        }
    } else if b == 0x44 {
        match spec_u64_le(s, pos) {
            None => None,
            Some((bits, p1)) => Some((SpecOperator::F64Const { bits }, p1)),
        }
    } else if b == 0x45 {
        Some((SpecOperator::I32Eqz, pos))
    } else if b == 0x6a {
        Some((SpecOperator::I32Add, pos))
    } else if b == 0x6b {
        Some((SpecOperator::I32Sub, pos))
    } else if b == 0x7c {
        Some((SpecOperator::I64Add, pos))
    } else if b == 0xe3 {
        match spec_var_u32(s, pos) {
            None => None,
            Some((cont_type_index, p1)) => match spec_resume_table(s, p1) {
                None => None,
                Some((resume_table, p2)) => Some(
                    (SpecOperator::Resume { cont_type_index, resume_table }, p2),
                ),
            },
        }
    } else if b == 0xe4 {
        match spec_var_u32(s, pos) {
            None => None,
            Some((cont_type_index, p1)) => match spec_var_u32(s, p1) {
                None => None,
                Some((tag_index, p2)) => match spec_resume_table(s, p2) {
                    None => None,
                    Some((resume_table, p3)) => Some(
                        (SpecOperator::ResumeThrow { cont_type_index, tag_index, resume_table }, p3),
                    ),
                },
            },
        }
    } else {
        None
    }
}

/// One whole instruction: an opcode byte, possibly an escape into an
/// extended opcode space, then the form's immediates.
pub open spec fn spec_read_operator(s: Seq<u8>, pos: int) -> Option<(SpecOperator, int)> {
    match spec_u8(s, pos) {
        None => None,
        Some((b, p1)) => if b == 0xfc {
            spec_op_fc(s, p1)
        } else if b == 0xfd {
            spec_op_fd(s, p1)
        } else if b == 0xfe {
            spec_op_fe(s, p1)
        } else {
            spec_op_base(b, s, p1)
        },
    }
}

// ---------------------------------------------------------------------------
// Exact-bit-pattern identity of float immediates.
// ---------------------------------------------------------------------------

/// Decoding an `f32.const` instruction whose four little-endian immediate
/// bytes compose the 32-bit pattern `b0 + 256*b1 + 65536*b2 + 16777216*b3`
/// yields exactly that bit pattern back. Every pattern is covered, so all
/// NaN payload and sign-bit combinations are preserved and distinct.
pub proof fn lemma_f32_const_bit_roundtrip(b0: u8, b1: u8, b2: u8, b3: u8)
    ensures
        spec_read_operator(seq![0x43u8, b0, b1, b2, b3], 0) == Some(
            (
                SpecOperator::F32Const {
                    bits: (b0 + 256 * b1 + 65536 * b2 + 16777216 * b3) as u32,
                },
                5int,
            ),
        ),
{
    let s = seq![0x43u8, b0, b1, b2, b3];
    reveal_with_fuel(spec_le_bytes, 6);
    assert(spec_le_bytes(s, 1, 4) == Some(
        (b0 + 256 * b1 + 65536 * b2 + 16777216 * b3, 5int),
    ));
}

/// The 64-bit counterpart of [`lemma_f32_const_bit_roundtrip`]: decoding an
/// `f64.const` instruction preserves every 64-bit pattern exactly.
pub proof fn lemma_f64_const_bit_roundtrip(
    b0: u8,
    b1: u8,
    b2: u8,
    b3: u8,
    b4: u8,
    b5: u8,
    b6: u8,
    b7: u8,
)
    ensures
        spec_read_operator(seq![0x44u8, b0, b1, b2, b3, b4, b5, b6, b7], 0) == Some(
            (
                SpecOperator::F64Const {
                    bits: (b0 + 0x100 * b1 + 0x10000 * b2 + 0x1000000 * b3 + 0x100000000 * b4
                        + 0x10000000000 * b5 + 0x1000000000000 * b6
                        + 0x100000000000000 * b7) as u64,
                },
                9int,
            ),
        ),
{
    let s = seq![0x44u8, b0, b1, b2, b3, b4, b5, b6, b7];
    reveal_with_fuel(spec_le_bytes, 10);
    assert(spec_le_bytes(s, 1, 8) == Some(
        (
            b0 + 0x100 * b1 + 0x10000 * b2 + 0x1000000 * b3 + 0x100000000 * b4
                + 0x10000000000 * b5 + 0x1000000000000 * b6 + 0x100000000000000 * b7,
            9int,
        ),
    ));
}

// ---------------------------------------------------------------------------
// The executable decoder.
// ---------------------------------------------------------------------------

impl<'a> BinaryReader<'a> {
    /// Decodes the `0xFC` extended opcode space, after its escape byte.
    fn read_operator_fc(&mut self) -> (r: Result<Operator<'a>>)
        requires
            old(self).wf(),
        ensures
            final(self).wf(),
            final(self).spec_data() == old(self).spec_data(),
            final(self).spec_offset() == old(self).spec_offset(),
            final(self).spec_pos() >= old(self).spec_pos(),
            match spec_op_fc(old(self).spec_data(), old(self).spec_pos()) {
                Some(ve) => r matches Ok(op) && op@ == ve.0 && op.wf()
                    && final(self).spec_pos() == ve.1,
                None => r is Err,
            },
    {
        let pos: usize = self.original_position();
        let sub: u32 = match self.read_var_u32() {
            Ok(v) => v,
            Err(e) => return Err(e),
        };
        match sub {
            9 => {
                let data_index: u32 = match self.read_var_u32() {
                    Ok(v) => v,
                    Err(e) => return Err(e),
                };
                Ok(Operator::DataDrop { data_index })
            },
            10 => {
                let dst_mem: u32 = match self.read_var_u32() {
                    Ok(v) => v,
                    Err(e) => return Err(e),
                };
                let src_mem: u32 = match self.read_var_u32() {
                    Ok(v) => v,
                    Err(e) => return Err(e),
                };
                Ok(Operator::MemoryCopy { dst_mem, src_mem })
            },
            11 => {
                let mem: u32 = match self.read_var_u32() {
                    Ok(v) => v,
                    Err(e) => return Err(e),
                };
                Ok(Operator::MemoryFill { mem })
            },
            _ => Err(BinaryReaderError::new(
                ErrorKind::UnknownSubOpcode { sub_opcode: sub, context: "0xfc subopcode" },
                pos,
            )),
        }
    }

    /// Decodes the `0xFD` (vector) extended opcode space, after its escape
    /// byte.
    fn read_operator_fd(&mut self) -> (r: Result<Operator<'a>>)
        requires
            old(self).wf(),
        ensures
            final(self).wf(),
            final(self).spec_data() == old(self).spec_data(),
            final(self).spec_offset() == old(self).spec_offset(),
            final(self).spec_pos() >= old(self).spec_pos(),
            match spec_op_fd(old(self).spec_data(), old(self).spec_pos()) {
                Some(ve) => r matches Ok(op) && op@ == ve.0 && op.wf()
                    && final(self).spec_pos() == ve.1,
                None => r is Err,
            },
    {
        let pos: usize = self.original_position();
        let sub: u32 = match self.read_var_u32() {
            Ok(v) => v,
            Err(e) => return Err(e),
        };
        match sub {
            0 => {
                let memarg: MemArg = match self.read_memarg(4) {
                    Ok(v) => v,
                    Err(e) => return Err(e),
                };
                Ok(Operator::V128Load { memarg })
            },
            12 => {
                let value: V128 = match self.read_v128() {
                    Ok(v) => v,
                    Err(e) => return Err(e),
                };
                Ok(Operator::V128Const { value })
            },
            _ => Err(BinaryReaderError::new(
                ErrorKind::UnknownSubOpcode { sub_opcode: sub, context: "0xfd subopcode" },
                pos,
            )),
        }
    }

    /// Decodes the `0xFE` (atomics) extended opcode space, after its escape
    /// byte.
    fn read_operator_fe(&mut self) -> (r: Result<Operator<'a>>)
        requires
            old(self).wf(),
        ensures
            final(self).wf(),
            final(self).spec_data() == old(self).spec_data(),
            final(self).spec_offset() == old(self).spec_offset(),
            final(self).spec_pos() >= old(self).spec_pos(),
            match spec_op_fe(old(self).spec_data(), old(self).spec_pos()) {
                Some(ve) => r matches Ok(op) && op@ == ve.0 && op.wf()
                    && final(self).spec_pos() == ve.1,
                None => r is Err,
            },
    {
        let pos: usize = self.original_position();
        let sub: u32 = match self.read_var_u32() {
            Ok(v) => v,
            Err(e) => return Err(e),
        };
        match sub {
            0x10 => {
                let memarg: MemArg = match self.read_memarg(2) {
                    Ok(v) => v,
                    Err(e) => return Err(e),
                };
                Ok(Operator::I32AtomicLoad { memarg })
            },
            0x4F => {
                let ordering: Ordering = match self.read_ordering() {
                    Ok(v) => v,
                    Err(e) => return Err(e),
                };
                let global_index: u32 = match self.read_var_u32() {
                    Ok(v) => v,
                    Err(e) => return Err(e),
                };
                Ok(Operator::GlobalAtomicGet { ordering, global_index })
            },
            0x50 => {
                let ordering: Ordering = match self.read_ordering() {
                    Ok(v) => v,
                    Err(e) => return Err(e),
                };
                let global_index: u32 = match self.read_var_u32() {
                    Ok(v) => v,
                    Err(e) => return Err(e),
                };
                Ok(Operator::GlobalAtomicSet { ordering, global_index })
            },
            _ => Err(BinaryReaderError::new(
                ErrorKind::UnknownSubOpcode { sub_opcode: sub, context: "0xfe subopcode" },
                pos,
            )),
        }
    }

    /// Decodes exactly one instruction, advancing the cursor past it; never
    /// looks ahead past what the instruction requires and never backtracks.
    /// Fails exactly on the inputs [`spec_read_operator`] rejects.
    #[verifier::rlimit(60)]
    pub fn read_operator(&mut self) -> (r: Result<Operator<'a>>)
        requires
            old(self).wf(),
        ensures
            final(self).wf(),
            final(self).spec_data() == old(self).spec_data(),
            final(self).spec_offset() == old(self).spec_offset(),
            final(self).spec_pos() >= old(self).spec_pos(),
            match spec_read_operator(old(self).spec_data(), old(self).spec_pos()) {
                Some(ve) => r matches Ok(op) && op@ == ve.0 && op.wf()
                    && final(self).spec_pos() == ve.1,
                None => r is Err,
            },
    {
        let pos: usize = self.original_position();
        let b: u8 = match self.read_u8() {
            Ok(v) => v,
            Err(e) => return Err(e),
        };
        match b {
            0x00 => Ok(Operator::Unreachable),
            0x01 => Ok(Operator::Nop),
            0x02 => {
                let blockty: BlockType = match self.read_block_type() {
                    Ok(v) => v,
                    Err(e) => return Err(e),
                };
                Ok(Operator::Block { blockty })
            },
            0x03 => {
                let blockty: BlockType = match self.read_block_type() {
                    Ok(v) => v,
                    Err(e) => return Err(e),
                };
                Ok(Operator::Loop { blockty })
            },
            0x04 => {
                let blockty: BlockType = match self.read_block_type() {
                    Ok(v) => v,
                    Err(e) => return Err(e),
                };
                Ok(Operator::If { blockty })
            },
            0x05 => Ok(Operator::Else),
            0x0b => Ok(Operator::End),
            0x0c => {
                let relative_depth: u32 = match self.read_var_u32() {
                    Ok(v) => v,
                    Err(e) => return Err(e),
                };
                Ok(Operator::Br { relative_depth })
            },
            0x0d => {
                let relative_depth: u32 = match self.read_var_u32() {
                    Ok(v) => v,
                    Err(e) => return Err(e),
                };
                Ok(Operator::BrIf { relative_depth })
            },
            0x0e => {
                let targets: BrTable<'a> = match self.read_br_table() {
                    Ok(v) => v,
                    Err(e) => return Err(e),
                };
                Ok(Operator::BrTable { targets })
            },
            0x0f => Ok(Operator::Return),
            0x10 => {
                let function_index: u32 = match self.read_var_u32() {
                    Ok(v) => v,
                    Err(e) => return Err(e),
                };
                Ok(Operator::Call { function_index })
            },
            0x11 => {
                let type_index: u32 = match self.read_var_u32() {
                    Ok(v) => v,
                    Err(e) => return Err(e),
                };
                let table_index: u32 = match self.read_var_u32() {
                    Ok(v) => v,
                    Err(e) => return Err(e),
                };
                Ok(Operator::CallIndirect { type_index, table_index })
            },
            0x1a => Ok(Operator::Drop),
            0x1b => Ok(Operator::Select),
            0x1f => {
                let try_table: TryTable = match TryTable::from_reader(self) {
                    Ok(v) => v,
                    Err(e) => return Err(e),
                };
                Ok(Operator::TryTable { try_table })
            },
            0x20 => {
                let local_index: u32 = match self.read_var_u32() {
                    Ok(v) => v,
                    Err(e) => return Err(e),
                };
                Ok(Operator::LocalGet { local_index })
            },
            0x21 => {
                let local_index: u32 = match self.read_var_u32() {
                    Ok(v) => v,
                    Err(e) => return Err(e),
                };
                Ok(Operator::LocalSet { local_index })
            },
            0x22 => {
                let local_index: u32 = match self.read_var_u32() {
                    Ok(v) => v,
                    Err(e) => return Err(e),
                };
                Ok(Operator::LocalTee { local_index })
            },
            0x23 => {
                let global_index: u32 = match self.read_var_u32() {
                    Ok(v) => v,
                    Err(e) => return Err(e),
                };
                Ok(Operator::GlobalGet { global_index })
            },
            0x24 => {
                let global_index: u32 = match self.read_var_u32() {
                    Ok(v) => v,
                    Err(e) => return Err(e),
                };
                Ok(Operator::GlobalSet { global_index })
            },
            0x28 => {
                let memarg: MemArg = match self.read_memarg(2) {
                    Ok(v) => v,
                    Err(e) => return Err(e),
                };
                Ok(Operator::I32Load { memarg })
            },
            0x29 => {
                let memarg: MemArg = match self.read_memarg(3) {
                    Ok(v) => v,
                    Err(e) => return Err(e),
                };
                Ok(Operator::I64Load { memarg })
            },
            0x36 => {
                let memarg: MemArg = match self.read_memarg(2) {
                    Ok(v) => v,
                    Err(e) => return Err(e),
                };
                Ok(Operator::I32Store { memarg })
            },
            0x37 => {
                let memarg: MemArg = match self.read_memarg(3) {
                    Ok(v) => v,
                    Err(e) => return Err(e),
                };
                Ok(Operator::I64Store { memarg })
            },
            0x3f => {
                let mem: u32 = match self.read_var_u32() {
                    Ok(v) => v,
                    Err(e) => return Err(e),
                };
                Ok(Operator::MemorySize { mem })
            },
            0x40 => {
                let mem: u32 = match self.read_var_u32() {
                    Ok(v) => v,
                    Err(e) => return Err(e),
                };
                Ok(Operator::MemoryGrow { mem })
            },
            0x41 => {
                let value: i32 = match self.read_var_i32() {
                    Ok(v) => v,
                    Err(e) => return Err(e),
                };
                Ok(Operator::I32Const { value })
            },
            0x42 => {
                let value: i64 = match self.read_var_i64() {
                    Ok(v) => v,
                    Err(e) => return Err(e),
                };
                Ok(Operator::I64Const { value })
            },
            0x43 => {
                let value: Ieee32 = match self.read_f32() {
                    Ok(v) => v,
                    Err(e) => return Err(e),
                };
                Ok(Operator::F32Const { value })
            },
            0x44 => {
                let value: Ieee64 = match self.read_f64() {
                    Ok(v) => v,
                    Err(e) => return Err(e),
                };
                Ok(Operator::F64Const { value })
            },
            0x45 => Ok(Operator::I32Eqz),
            0x6a => Ok(Operator::I32Add),
            0x6b => Ok(Operator::I32Sub),
            0x7c => Ok(Operator::I64Add),
            0xe3 => {
                let cont_type_index: u32 = match self.read_var_u32() {
                    Ok(v) => v,
                    Err(e) => return Err(e),
                };
                let resume_table: ResumeTable = match ResumeTable::from_reader(self) {
                    Ok(v) => v,
                    Err(e) => return Err(e),
                };
                Ok(Operator::Resume { cont_type_index, resume_table })
            },
            0xe4 => {
                let cont_type_index: u32 = match self.read_var_u32() {
                    Ok(v) => v,
                    Err(e) => return Err(e),
                };
                let tag_index: u32 = match self.read_var_u32() {
                    Ok(v) => v,
                    Err(e) => return Err(e),
                };
                let resume_table: ResumeTable = match ResumeTable::from_reader(self) {
                    Ok(v) => v,
                    Err(e) => return Err(e),
                };
                Ok(Operator::ResumeThrow { cont_type_index, tag_index, resume_table })
            },
            0xfc => self.read_operator_fc(),
            0xfd => self.read_operator_fd(),
            0xfe => self.read_operator_fe(),
            _ => Err(BinaryReaderError::new(
                ErrorKind::InvalidLeadingByte { byte: b, context: "operator" },
                pos,
            )),
        }
    }
}

} // verus!
