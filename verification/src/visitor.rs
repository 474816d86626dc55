//! The double-dispatch visitor abstraction: one method per instruction kind
//! plus a default, fully covering dispatcher, so a caller can act on every
//! decoded instruction without writing its own exhaustive match.
//!
//! A mutable borrow of a visitor is itself a visitor, and an owned boxed
//! visitor is itself a visitor: both forward every call unchanged.

use vstd::prelude::*;
use crate::branch::BrTable;
use crate::error::{BinaryReaderError, ErrorKind, Result};
use crate::immediates::{BlockType, Ieee32, Ieee64, MemArg, Ordering, V128};
use crate::operator::{Operator, spec_op_fc, spec_op_fd, spec_op_fe, spec_read_operator};
use crate::reader::BinaryReader;
use crate::tables::{ResumeTable, TryTable};

verus! {

/// Types that can visit every [`Operator`] variant.
///
/// `visit_operator` is a convenience dispatcher over an already-decoded
/// operator; the per-kind methods are the primitive interface.
pub trait VisitOperator<'a> {
    /// The result type of the visitor.
    type Output;

    /// Visits an already-decoded operator by forwarding to the matching
    /// per-kind method.
    fn visit_operator(&mut self, op: &Operator<'a>) -> Self::Output {
        match op {
            Operator::Unreachable => self.visit_unreachable(),
            Operator::Nop => self.visit_nop(),
            Operator::Block { blockty } => self.visit_block(*blockty),
            Operator::Loop { blockty } => self.visit_loop(*blockty),
            Operator::If { blockty } => self.visit_if(*blockty),
            Operator::Else => self.visit_else(),
            Operator::End => self.visit_end(),
            Operator::Br { relative_depth } => self.visit_br(*relative_depth),
            Operator::BrIf { relative_depth } => self.visit_br_if(*relative_depth),
            Operator::BrTable { targets } => self.visit_br_table(targets.clone()),
            Operator::Return => self.visit_return(),
            Operator::Call { function_index } => self.visit_call(*function_index),
            Operator::CallIndirect { type_index, table_index } => self.visit_call_indirect(
                *type_index,
                *table_index,
            ),
            Operator::Drop => self.visit_drop(),
            Operator::Select => self.visit_select(),
            Operator::TryTable { try_table } => self.visit_try_table(try_table.clone()),
            Operator::LocalGet { local_index } => self.visit_local_get(*local_index),
            Operator::LocalSet { local_index } => self.visit_local_set(*local_index),
            Operator::LocalTee { local_index } => self.visit_local_tee(*local_index),
            Operator::GlobalGet { global_index } => self.visit_global_get(*global_index),
            Operator::GlobalSet { global_index } => self.visit_global_set(*global_index),
            Operator::I32Load { memarg } => self.visit_i32_load(*memarg),
            Operator::I64Load { memarg } => self.visit_i64_load(*memarg),
            Operator::I32Store { memarg } => self.visit_i32_store(*memarg),
            Operator::I64Store { memarg } => self.visit_i64_store(*memarg),
            Operator::MemorySize { mem } => self.visit_memory_size(*mem),
            Operator::MemoryGrow { mem } => self.visit_memory_grow(*mem),
            Operator::I32Const { value } => self.visit_i32_const(*value),
            Operator::I64Const { value } => self.visit_i64_const(*value),
            Operator::F32Const { value } => self.visit_f32_const(*value),
            Operator::F64Const { value } => self.visit_f64_const(*value),
            Operator::I32Eqz => self.visit_i32_eqz(),
            Operator::I32Add => self.visit_i32_add(),
            Operator::I32Sub => self.visit_i32_sub(),
            Operator::I64Add => self.visit_i64_add(),
            Operator::Resume { cont_type_index, resume_table } => self.visit_resume(
                *cont_type_index,
                resume_table.clone(),
            ),
            Operator::ResumeThrow { cont_type_index, tag_index, resume_table } => self
                .visit_resume_throw(*cont_type_index, *tag_index, resume_table.clone()),
            Operator::DataDrop { data_index } => self.visit_data_drop(*data_index),
            Operator::MemoryCopy { dst_mem, src_mem } => self.visit_memory_copy(
                *dst_mem,
                *src_mem,
            ),
            Operator::MemoryFill { mem } => self.visit_memory_fill(*mem),
            Operator::V128Load { memarg } => self.visit_v128_load(*memarg),
            Operator::V128Const { value } => self.visit_v128_const(*value),
            Operator::I32AtomicLoad { memarg } => self.visit_i32_atomic_load(*memarg),
            Operator::GlobalAtomicGet { ordering, global_index } => self.visit_global_atomic_get(
                *ordering,
                *global_index,
            ),
            Operator::GlobalAtomicSet { ordering, global_index } => self.visit_global_atomic_set(
                *ordering,
                *global_index,
            ),
        }
    }

    fn visit_unreachable(&mut self) -> Self::Output;

    fn visit_nop(&mut self) -> Self::Output;

    fn visit_block(&mut self, blockty: BlockType) -> Self::Output;

    fn visit_loop(&mut self, blockty: BlockType) -> Self::Output;

    fn visit_if(&mut self, blockty: BlockType) -> Self::Output;

    fn visit_else(&mut self) -> Self::Output;

    fn visit_end(&mut self) -> Self::Output;

    fn visit_br(&mut self, relative_depth: u32) -> Self::Output;

    fn visit_br_if(&mut self, relative_depth: u32) -> Self::Output;

    fn visit_br_table(&mut self, targets: BrTable<'a>) -> Self::Output;

    fn visit_return(&mut self) -> Self::Output;

    fn visit_call(&mut self, function_index: u32) -> Self::Output;

    fn visit_call_indirect(&mut self, type_index: u32, table_index: u32) -> Self::Output;

    fn visit_drop(&mut self) -> Self::Output;

    fn visit_select(&mut self) -> Self::Output;

    fn visit_try_table(&mut self, try_table: TryTable) -> Self::Output;

    fn visit_local_get(&mut self, local_index: u32) -> Self::Output;

    fn visit_local_set(&mut self, local_index: u32) -> Self::Output;

    fn visit_local_tee(&mut self, local_index: u32) -> Self::Output;

    fn visit_global_get(&mut self, global_index: u32) -> Self::Output;

    fn visit_global_set(&mut self, global_index: u32) -> Self::Output;

    fn visit_i32_load(&mut self, memarg: MemArg) -> Self::Output;

    fn visit_i64_load(&mut self, memarg: MemArg) -> Self::Output;

    fn visit_i32_store(&mut self, memarg: MemArg) -> Self::Output;

    fn visit_i64_store(&mut self, memarg: MemArg) -> Self::Output;

    fn visit_memory_size(&mut self, mem: u32) -> Self::Output;

    fn visit_memory_grow(&mut self, mem: u32) -> Self::Output;

    fn visit_i32_const(&mut self, value: i32) -> Self::Output;

    fn visit_i64_const(&mut self, value: i64) -> Self::Output;

    fn visit_f32_const(&mut self, value: Ieee32) -> Self::Output;

    fn visit_f64_const(&mut self, value: Ieee64) -> Self::Output;

    fn visit_i32_eqz(&mut self) -> Self::Output;

    fn visit_i32_add(&mut self) -> Self::Output;

    fn visit_i32_sub(&mut self) -> Self::Output;

    fn visit_i64_add(&mut self) -> Self::Output;

    fn visit_resume(&mut self, cont_type_index: u32, resume_table: ResumeTable) -> Self::Output;

    fn visit_resume_throw(
        &mut self,
        cont_type_index: u32,
        tag_index: u32,
        resume_table: ResumeTable,
    ) -> Self::Output;

    fn visit_data_drop(&mut self, data_index: u32) -> Self::Output;

    fn visit_memory_copy(&mut self, dst_mem: u32, src_mem: u32) -> Self::Output;

    fn visit_memory_fill(&mut self, mem: u32) -> Self::Output;

    fn visit_v128_load(&mut self, memarg: MemArg) -> Self::Output;

    fn visit_v128_const(&mut self, value: V128) -> Self::Output;

    fn visit_i32_atomic_load(&mut self, memarg: MemArg) -> Self::Output;

    fn visit_global_atomic_get(&mut self, ordering: Ordering, global_index: u32) -> Self::Output;

    fn visit_global_atomic_set(&mut self, ordering: Ordering, global_index: u32) -> Self::Output;
}

impl<'a> BinaryReader<'a> {
    /// Dispatches the `0xFC` extended opcode space straight to the visitor,
    /// after the escape byte.
    fn visit_operator_fc<T: VisitOperator<'a>>(&mut self, visitor: &mut T) -> (r: Result<
        T::Output,
    >)
        requires
            old(self).wf(),
        ensures
            final(self).wf(),
            final(self).spec_data() == old(self).spec_data(),
            final(self).spec_offset() == old(self).spec_offset(),
            final(self).spec_pos() >= old(self).spec_pos(),
            match spec_op_fc(old(self).spec_data(), old(self).spec_pos()) {
                Some(ve) => r is Ok && final(self).spec_pos() == ve.1,
                None => r is Err,
            },
    {
        let pos: usize = self.original_position();
        let sub: u32 = match self.read_var_u32() {
            Ok(v) => v,
            Err(e) => return Err(e),
        };
        match sub {
            9 => {
                let data_index: u32 = match self.read_var_u32() {
                    Ok(v) => v,
                    Err(e) => return Err(e),
                };
                Ok(visitor.visit_data_drop(data_index))
            },
            10 => {
                let dst_mem: u32 = match self.read_var_u32() {
                    Ok(v) => v,
                    Err(e) => return Err(e),
                };
                let src_mem: u32 = match self.read_var_u32() {
                    Ok(v) => v,
                    Err(e) => return Err(e),
                };
                Ok(visitor.visit_memory_copy(dst_mem, src_mem))
            },
            11 => {
                let mem: u32 = match self.read_var_u32() {
                    Ok(v) => v,
                    Err(e) => return Err(e),
                };
                Ok(visitor.visit_memory_fill(mem))
            },
            _ => Err(BinaryReaderError::new(
                ErrorKind::UnknownSubOpcode { sub_opcode: sub, context: "0xfc subopcode" },
                pos,
            )),
        }
    }

    /// Dispatches the `0xFD` (vector) extended opcode space straight to the
    /// visitor, after the escape byte.
    fn visit_operator_fd<T: VisitOperator<'a>>(&mut self, visitor: &mut T) -> (r: Result<
        T::Output,
    >)
        requires
            old(self).wf(),
        ensures
            final(self).wf(),
            final(self).spec_data() == old(self).spec_data(),
            final(self).spec_offset() == old(self).spec_offset(),
            final(self).spec_pos() >= old(self).spec_pos(),
            match spec_op_fd(old(self).spec_data(), old(self).spec_pos()) {
                Some(ve) => r is Ok && final(self).spec_pos() == ve.1,
                None => r is Err,
            },
    {
        let pos: usize = self.original_position();
        let sub: u32 = match self.read_var_u32() {
            Ok(v) => v,
            Err(e) => return Err(e),
        };
        match sub {
            0 => {
                let memarg: MemArg = match self.read_memarg(4) {
                    Ok(v) => v,
                    Err(e) => return Err(e),
                };
                Ok(visitor.visit_v128_load(memarg))
            },
            12 => {
                let value: V128 = match self.read_v128() {
                    Ok(v) => v,
                    Err(e) => return Err(e),
                };
                Ok(visitor.visit_v128_const(value))
            },
            _ => Err(BinaryReaderError::new(
                ErrorKind::UnknownSubOpcode { sub_opcode: sub, context: "0xfd subopcode" },
                pos,
            )),
        }
    }

    /// Dispatches the `0xFE` (atomics) extended opcode space straight to the
    /// visitor, after the escape byte.
    fn visit_operator_fe<T: VisitOperator<'a>>(&mut self, visitor: &mut T) -> (r: Result<
        T::Output,
    >)
        requires
            old(self).wf(),
        ensures
            final(self).wf(),
            final(self).spec_data() == old(self).spec_data(),
            final(self).spec_offset() == old(self).spec_offset(),
            final(self).spec_pos() >= old(self).spec_pos(),
            match spec_op_fe(old(self).spec_data(), old(self).spec_pos()) {
                Some(ve) => r is Ok && final(self).spec_pos() == ve.1,
                None => r is Err,
            },
    {
        let pos: usize = self.original_position();
        let sub: u32 = match self.read_var_u32() {
            Ok(v) => v,
            Err(e) => return Err(e),
        };
        match sub {
            0x10 => {
                let memarg: MemArg = match self.read_memarg(2) {
                    Ok(v) => v,
                    Err(e) => return Err(e),
                };
                Ok(visitor.visit_i32_atomic_load(memarg))
            },
            0x4F => {
                let ordering: Ordering = match self.read_ordering() {
                    Ok(v) => v,
                    Err(e) => return Err(e),
                };
                let global_index: u32 = match self.read_var_u32() {
                    Ok(v) => v,
                    Err(e) => return Err(e),
                };
                Ok(visitor.visit_global_atomic_get(ordering, global_index))
            },
            0x50 => {
                let ordering: Ordering = match self.read_ordering() {
                    Ok(v) => v,
                    Err(e) => return Err(e),
                };
                let global_index: u32 = match self.read_var_u32() {
                    Ok(v) => v,
                    Err(e) => return Err(e),
                };
                Ok(visitor.visit_global_atomic_set(ordering, global_index))
            },
            _ => Err(BinaryReaderError::new(
                ErrorKind::UnknownSubOpcode { sub_opcode: sub, context: "0xfe subopcode" },
                pos,
            )),
        }
    }

    /// Decodes one instruction and dispatches it to the matching visitor
    /// method in one pass, without materializing an [`Operator`] value. The
    /// cursor advances exactly as `read_operator` would on the same bytes,
    /// and fails exactly on the inputs [`spec_read_operator`] rejects.
    #[verifier::rlimit(60)]
    pub fn visit_operator<T: VisitOperator<'a>>(&mut self, visitor: &mut T) -> (r: Result<
        T::Output,
    >)
        requires
            old(self).wf(),
        ensures
            final(self).wf(),
            final(self).spec_data() == old(self).spec_data(),
            final(self).spec_offset() == old(self).spec_offset(),
            final(self).spec_pos() >= old(self).spec_pos(),
            match spec_read_operator(old(self).spec_data(), old(self).spec_pos()) {
                Some(ve) => r is Ok && final(self).spec_pos() == ve.1,
                None => r is Err,
            },
    {
        let pos: usize = self.original_position();
        let b: u8 = match self.read_u8() {
            Ok(v) => v,
            Err(e) => return Err(e),
        };
        match b {
            0x00 => Ok(visitor.visit_unreachable()),
            0x01 => Ok(visitor.visit_nop()),
            0x02 => {
                let blockty: BlockType = match self.read_block_type() {
                    Ok(v) => v,
                    Err(e) => return Err(e),
                };
                Ok(visitor.visit_block(blockty))
            },
            0x03 => {
                let blockty: BlockType = match self.read_block_type() {
                    Ok(v) => v,
                    Err(e) => return Err(e),
                };
                Ok(visitor.visit_loop(blockty))
            },
            0x04 => {
                let blockty: BlockType = match self.read_block_type() {
                    Ok(v) => v,
                    Err(e) => return Err(e),
                };
                Ok(visitor.visit_if(blockty))
            },
            0x05 => Ok(visitor.visit_else()),
            0x0b => Ok(visitor.visit_end()),
            0x0c => {
                let relative_depth: u32 = match self.read_var_u32() {
                    Ok(v) => v,
                    Err(e) => return Err(e),
                };
                Ok(visitor.visit_br(relative_depth))
            },
            0x0d => {
                let relative_depth: u32 = match self.read_var_u32() {
                    Ok(v) => v,
                    Err(e) => return Err(e),
                };
                Ok(visitor.visit_br_if(relative_depth))
            },
            0x0e => {
                let targets: BrTable<'a> = match self.read_br_table() {
                    Ok(v) => v,
                    Err(e) => return Err(e),
                };
                Ok(visitor.visit_br_table(targets))
            },
            0x0f => Ok(visitor.visit_return()),
            0x10 => {
                let function_index: u32 = match self.read_var_u32() {
                    Ok(v) => v,
                    Err(e) => return Err(e),
                };
                Ok(visitor.visit_call(function_index))
            },
            0x11 => {
                let type_index: u32 = match self.read_var_u32() {
                    Ok(v) => v,
                    Err(e) => return Err(e),
                };
                let table_index: u32 = match self.read_var_u32() {
                    Ok(v) => v,
                    Err(e) => return Err(e),
                };
                Ok(visitor.visit_call_indirect(type_index, table_index))
            },
            0x1a => Ok(visitor.visit_drop()),
            0x1b => Ok(visitor.visit_select()),
            0x1f => {
                let try_table: TryTable = match TryTable::from_reader(self) {
                    Ok(v) => v,
                    Err(e) => return Err(e),
                };
                Ok(visitor.visit_try_table(try_table))
            },
            0x20 => {
                let local_index: u32 = match self.read_var_u32() {
                    Ok(v) => v,
                    Err(e) => return Err(e),
                };
                Ok(visitor.visit_local_get(local_index))
            },
            0x21 => {
                let local_index: u32 = match self.read_var_u32() {
                    Ok(v) => v,
                    Err(e) => return Err(e),
                };
                Ok(visitor.visit_local_set(local_index))
            },
            0x22 => {
                let local_index: u32 = match self.read_var_u32() {
                    Ok(v) => v,
                    Err(e) => return Err(e),
                };
                Ok(visitor.visit_local_tee(local_index))
            },
            0x23 => {
                let global_index: u32 = match self.read_var_u32() {
                    Ok(v) => v,
                    Err(e) => return Err(e),
                };
                Ok(visitor.visit_global_get(global_index))
            },
            0x24 => {
                let global_index: u32 = match self.read_var_u32() {
                    Ok(v) => v,
                    Err(e) => return Err(e),
                };
                Ok(visitor.visit_global_set(global_index))
            },
            0x28 => {
                let memarg: MemArg = match self.read_memarg(2) {
                    Ok(v) => v,
                    Err(e) => return Err(e),
                };
                Ok(visitor.visit_i32_load(memarg))
            },
            0x29 => {
                let memarg: MemArg = match self.read_memarg(3) {
                    Ok(v) => v,
                    Err(e) => return Err(e),
                };
                Ok(visitor.visit_i64_load(memarg))
            },
            0x36 => {
                let memarg: MemArg = match self.read_memarg(2) {
                    Ok(v) => v,
                    Err(e) => return Err(e),
                };
                Ok(visitor.visit_i32_store(memarg))
            },
            0x37 => {
                let memarg: MemArg = match self.read_memarg(3) {
                    Ok(v) => v,
                    Err(e) => return Err(e),
                };
                Ok(visitor.visit_i64_store(memarg))
            },
            0x3f => {
                let mem: u32 = match self.read_var_u32() {
                    Ok(v) => v,
                    Err(e) => return Err(e),
                };
                Ok(visitor.visit_memory_size(mem))
            },
            0x40 => {
                let mem: u32 = match self.read_var_u32() {
                    Ok(v) => v,
                    Err(e) => return Err(e),
                };
                Ok(visitor.visit_memory_grow(mem))
            },
            0x41 => {
                let value: i32 = match self.read_var_i32() {
                    Ok(v) => v,
                    Err(e) => return Err(e),
                };
                Ok(visitor.visit_i32_const(value))
            },
            0x42 => {
                let value: i64 = match self.read_var_i64() {
                    Ok(v) => v,
                    Err(e) => return Err(e),
                };
                Ok(visitor.visit_i64_const(value))
            },
            0x43 => {
                let value: Ieee32 = match self.read_f32() {
                    Ok(v) => v,
                    Err(e) => return Err(e),
                };
                Ok(visitor.visit_f32_const(value))
            },
            0x44 => {
                let value: Ieee64 = match self.read_f64() {
                    Ok(v) => v,
                    Err(e) => return Err(e),
                };
                Ok(visitor.visit_f64_const(value))
            },
            0x45 => Ok(visitor.visit_i32_eqz()),
            0x6a => Ok(visitor.visit_i32_add()),
            0x6b => Ok(visitor.visit_i32_sub()),
            0x7c => Ok(visitor.visit_i64_add()),
            0xe3 => {
                let cont_type_index: u32 = match self.read_var_u32() {
                    Ok(v) => v,
                    Err(e) => return Err(e),
                };
                let resume_table: ResumeTable = match ResumeTable::from_reader(self) {
                    Ok(v) => v,
                    Err(e) => return Err(e),
                };
                Ok(visitor.visit_resume(cont_type_index, resume_table))
            },
            0xe4 => {
                let cont_type_index: u32 = match self.read_var_u32() {
                    Ok(v) => v,
                    Err(e) => return Err(e),
                };
                let tag_index: u32 = match self.read_var_u32() {
                    Ok(v) => v,
                    Err(e) => return Err(e),
                };
                let resume_table: ResumeTable = match ResumeTable::from_reader(self) {
                    Ok(v) => v,
                    Err(e) => return Err(e),
                };
                Ok(visitor.visit_resume_throw(cont_type_index, tag_index, resume_table))
            },
            0xfc => self.visit_operator_fc(visitor),
            0xfd => self.visit_operator_fd(visitor),
            0xfe => self.visit_operator_fe(visitor),
            _ => Err(BinaryReaderError::new(
                ErrorKind::InvalidLeadingByte { byte: b, context: "operator" },
                pos,
            )),
        }
    }
}

impl<'a, 'b, V: VisitOperator<'a> + ?Sized> VisitOperator<'a> for &'b mut V {
    type Output = V::Output;

    fn visit_operator(&mut self, op: &Operator<'a>) -> Self::Output {
        V::visit_operator(&mut **self, op)
    }

    fn visit_unreachable(&mut self) -> Self::Output {
        V::visit_unreachable(&mut **self)
    }

    fn visit_nop(&mut self) -> Self::Output {
        V::visit_nop(&mut **self)
    }

    fn visit_block(&mut self, blockty: BlockType) -> Self::Output {
        V::visit_block(&mut **self, blockty)
    }

    fn visit_loop(&mut self, blockty: BlockType) -> Self::Output {
        V::visit_loop(&mut **self, blockty)
    }

    fn visit_if(&mut self, blockty: BlockType) -> Self::Output {
        V::visit_if(&mut **self, blockty)
    }

    fn visit_else(&mut self) -> Self::Output {
        V::visit_else(&mut **self)
    }

    fn visit_end(&mut self) -> Self::Output {
        V::visit_end(&mut **self)
    }

    fn visit_br(&mut self, relative_depth: u32) -> Self::Output {
        V::visit_br(&mut **self, relative_depth)
    }

    fn visit_br_if(&mut self, relative_depth: u32) -> Self::Output {
        V::visit_br_if(&mut **self, relative_depth)
    }

    fn visit_br_table(&mut self, targets: BrTable<'a>) -> Self::Output {
        V::visit_br_table(&mut **self, targets)
    }

    fn visit_return(&mut self) -> Self::Output {
        V::visit_return(&mut **self)
    }

    fn visit_call(&mut self, function_index: u32) -> Self::Output {
        V::visit_call(&mut **self, function_index)
    }

    fn visit_call_indirect(&mut self, type_index: u32, table_index: u32) -> Self::Output {
        V::visit_call_indirect(&mut **self, type_index, table_index)
    }

    fn visit_drop(&mut self) -> Self::Output {
        V::visit_drop(&mut **self)
    }

    fn visit_select(&mut self) -> Self::Output {
        V::visit_select(&mut **self)
    }

    fn visit_try_table(&mut self, try_table: TryTable) -> Self::Output {
        V::visit_try_table(&mut **self, try_table)
    }

    fn visit_local_get(&mut self, local_index: u32) -> Self::Output {
        V::visit_local_get(&mut **self, local_index)
    }

    fn visit_local_set(&mut self, local_index: u32) -> Self::Output {
        V::visit_local_set(&mut **self, local_index)
    }

    fn visit_local_tee(&mut self, local_index: u32) -> Self::Output {
        V::visit_local_tee(&mut **self, local_index)
    }

    fn visit_global_get(&mut self, global_index: u32) -> Self::Output {
        V::visit_global_get(&mut **self, global_index)
    }

    fn visit_global_set(&mut self, global_index: u32) -> Self::Output {
        V::visit_global_set(&mut **self, global_index)
    }

    fn visit_i32_load(&mut self, memarg: MemArg) -> Self::Output {
        V::visit_i32_load(&mut **self, memarg)
    }

    fn visit_i64_load(&mut self, memarg: MemArg) -> Self::Output {
        V::visit_i64_load(&mut **self, memarg)
    }

    fn visit_i32_store(&mut self, memarg: MemArg) -> Self::Output {
        V::visit_i32_store(&mut **self, memarg)
    }

    fn visit_i64_store(&mut self, memarg: MemArg) -> Self::Output {
        V::visit_i64_store(&mut **self, memarg)
    }

    fn visit_memory_size(&mut self, mem: u32) -> Self::Output {
        V::visit_memory_size(&mut **self, mem)
    }

    fn visit_memory_grow(&mut self, mem: u32) -> Self::Output {
        V::visit_memory_grow(&mut **self, mem)
    }

    fn visit_i32_const(&mut self, value: i32) -> Self::Output {
        V::visit_i32_const(&mut **self, value)
    }

    fn visit_i64_const(&mut self, value: i64) -> Self::Output {
        V::visit_i64_const(&mut **self, value)
    }

    fn visit_f32_const(&mut self, value: Ieee32) -> Self::Output {
        V::visit_f32_const(&mut **self, value)
    }

    fn visit_f64_const(&mut self, value: Ieee64) -> Self::Output {
        V::visit_f64_const(&mut **self, value)
    }

    fn visit_i32_eqz(&mut self) -> Self::Output {
        V::visit_i32_eqz(&mut **self)
    }

    fn visit_i32_add(&mut self) -> Self::Output {
        V::visit_i32_add(&mut **self)
    }

    fn visit_i32_sub(&mut self) -> Self::Output {
        V::visit_i32_sub(&mut **self)
    }

    fn visit_i64_add(&mut self) -> Self::Output {
        V::visit_i64_add(&mut **self)
    }

    fn visit_resume(&mut self, cont_type_index: u32, resume_table: ResumeTable) -> Self::Output {
        V::visit_resume(&mut **self, cont_type_index, resume_table)
    }

    fn visit_resume_throw(
        &mut self,
        cont_type_index: u32,
        tag_index: u32,
        resume_table: ResumeTable,
    ) -> Self::Output {
        V::visit_resume_throw(&mut **self, cont_type_index, tag_index, resume_table)
    }

    fn visit_data_drop(&mut self, data_index: u32) -> Self::Output {
        V::visit_data_drop(&mut **self, data_index)
    }

    fn visit_memory_copy(&mut self, dst_mem: u32, src_mem: u32) -> Self::Output {
        V::visit_memory_copy(&mut **self, dst_mem, src_mem)
    }

    fn visit_memory_fill(&mut self, mem: u32) -> Self::Output {
        V::visit_memory_fill(&mut **self, mem)
    }

    fn visit_v128_load(&mut self, memarg: MemArg) -> Self::Output {
        V::visit_v128_load(&mut **self, memarg)
    }

    fn visit_v128_const(&mut self, value: V128) -> Self::Output {
        V::visit_v128_const(&mut **self, value)
    }

    fn visit_i32_atomic_load(&mut self, memarg: MemArg) -> Self::Output {
        V::visit_i32_atomic_load(&mut **self, memarg)
    }

    fn visit_global_atomic_get(&mut self, ordering: Ordering, global_index: u32) -> Self::Output {
        V::visit_global_atomic_get(&mut **self, ordering, global_index)
    }

    fn visit_global_atomic_set(&mut self, ordering: Ordering, global_index: u32) -> Self::Output {
        V::visit_global_atomic_set(&mut **self, ordering, global_index)
    }
}

impl<'a, V: VisitOperator<'a> + ?Sized> VisitOperator<'a> for Box<V> {
    type Output = V::Output;

    fn visit_operator(&mut self, op: &Operator<'a>) -> Self::Output {
        V::visit_operator(&mut **self, op)
    }

    fn visit_unreachable(&mut self) -> Self::Output {
        V::visit_unreachable(&mut **self)
    }

    fn visit_nop(&mut self) -> Self::Output {
        V::visit_nop(&mut **self)
    }

    fn visit_block(&mut self, blockty: BlockType) -> Self::Output {
        V::visit_block(&mut **self, blockty)
    }

    fn visit_loop(&mut self, blockty: BlockType) -> Self::Output {
        V::visit_loop(&mut **self, blockty)
    }

    fn visit_if(&mut self, blockty: BlockType) -> Self::Output {
        V::visit_if(&mut **self, blockty)
    }

    fn visit_else(&mut self) -> Self::Output {
        V::visit_else(&mut **self)
    }

    fn visit_end(&mut self) -> Self::Output {
        V::visit_end(&mut **self)
    }

    fn visit_br(&mut self, relative_depth: u32) -> Self::Output {
        V::visit_br(&mut **self, relative_depth)
    }

    fn visit_br_if(&mut self, relative_depth: u32) -> Self::Output {
        V::visit_br_if(&mut **self, relative_depth)
    }

    fn visit_br_table(&mut self, targets: BrTable<'a>) -> Self::Output {
        V::visit_br_table(&mut **self, targets)
    }

    fn visit_return(&mut self) -> Self::Output {
        V::visit_return(&mut **self)
    }

    fn visit_call(&mut self, function_index: u32) -> Self::Output {
        V::visit_call(&mut **self, function_index)
    }

    fn visit_call_indirect(&mut self, type_index: u32, table_index: u32) -> Self::Output {
        V::visit_call_indirect(&mut **self, type_index, table_index)
    }

    fn visit_drop(&mut self) -> Self::Output {
        V::visit_drop(&mut **self)
    }

    fn visit_select(&mut self) -> Self::Output {
        V::visit_select(&mut **self)
    }

    fn visit_try_table(&mut self, try_table: TryTable) -> Self::Output {
        V::visit_try_table(&mut **self, try_table)
    }

    fn visit_local_get(&mut self, local_index: u32) -> Self::Output {
        V::visit_local_get(&mut **self, local_index)
    }

    fn visit_local_set(&mut self, local_index: u32) -> Self::Output {
        V::visit_local_set(&mut **self, local_index)
    }

    fn visit_local_tee(&mut self, local_index: u32) -> Self::Output {
        V::visit_local_tee(&mut **self, local_index)
    }

    fn visit_global_get(&mut self, global_index: u32) -> Self::Output {
        V::visit_global_get(&mut **self, global_index)
    }

    fn visit_global_set(&mut self, global_index: u32) -> Self::Output {
        V::visit_global_set(&mut **self, global_index)
    }

    fn visit_i32_load(&mut self, memarg: MemArg) -> Self::Output {
        V::visit_i32_load(&mut **self, memarg)
    }

    fn visit_i64_load(&mut self, memarg: MemArg) -> Self::Output {
        V::visit_i64_load(&mut **self, memarg)
    }

    fn visit_i32_store(&mut self, memarg: MemArg) -> Self::Output {
        V::visit_i32_store(&mut **self, memarg)
    }

    fn visit_i64_store(&mut self, memarg: MemArg) -> Self::Output {
        V::visit_i64_store(&mut **self, memarg)
    }

    fn visit_memory_size(&mut self, mem: u32) -> Self::Output {
        V::visit_memory_size(&mut **self, mem)
    }

    fn visit_memory_grow(&mut self, mem: u32) -> Self::Output {
        V::visit_memory_grow(&mut **self, mem)
    }

    fn visit_i32_const(&mut self, value: i32) -> Self::Output {
        V::visit_i32_const(&mut **self, value)
    }

    fn visit_i64_const(&mut self, value: i64) -> Self::Output {
        V::visit_i64_const(&mut **self, value)
    }

    fn visit_f32_const(&mut self, value: Ieee32) -> Self::Output {
        V::visit_f32_const(&mut **self, value)
    }

    fn visit_f64_const(&mut self, value: Ieee64) -> Self::Output {
        V::visit_f64_const(&mut **self, value)
    }

    fn visit_i32_eqz(&mut self) -> Self::Output {
        V::visit_i32_eqz(&mut **self)
    }

    fn visit_i32_add(&mut self) -> Self::Output {
        V::visit_i32_add(&mut **self)
    }

    fn visit_i32_sub(&mut self) -> Self::Output {
        V::visit_i32_sub(&mut **self)
    }

    fn visit_i64_add(&mut self) -> Self::Output {
        V::visit_i64_add(&mut **self)
    }

    fn visit_resume(&mut self, cont_type_index: u32, resume_table: ResumeTable) -> Self::Output {
        V::visit_resume(&mut **self, cont_type_index, resume_table)
    }

    fn visit_resume_throw(
        &mut self,
        cont_type_index: u32,
        tag_index: u32,
        resume_table: ResumeTable,
    ) -> Self::Output {
        V::visit_resume_throw(&mut **self, cont_type_index, tag_index, resume_table)
    }

    fn visit_data_drop(&mut self, data_index: u32) -> Self::Output {
        V::visit_data_drop(&mut **self, data_index)
    }

    fn visit_memory_copy(&mut self, dst_mem: u32, src_mem: u32) -> Self::Output {
        V::visit_memory_copy(&mut **self, dst_mem, src_mem)
    }

    fn visit_memory_fill(&mut self, mem: u32) -> Self::Output {
        V::visit_memory_fill(&mut **self, mem)
    }

    fn visit_v128_load(&mut self, memarg: MemArg) -> Self::Output {
        V::visit_v128_load(&mut **self, memarg)
    }

    fn visit_v128_const(&mut self, value: V128) -> Self::Output {
        V::visit_v128_const(&mut **self, value)
    }

    fn visit_i32_atomic_load(&mut self, memarg: MemArg) -> Self::Output {
        V::visit_i32_atomic_load(&mut **self, memarg)
    }

    fn visit_global_atomic_get(&mut self, ordering: Ordering, global_index: u32) -> Self::Output {
        V::visit_global_atomic_get(&mut **self, ordering, global_index)
    }

    fn visit_global_atomic_set(&mut self, ordering: Ordering, global_index: u32) -> Self::Output {
        V::visit_global_atomic_set(&mut **self, ordering, global_index)
    }
}

} // verus!
