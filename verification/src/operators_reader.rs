//! The cursor-owning façade over one function body's instruction stream:
//! end-of-stream queries, single-instruction reads (with or without byte
//! offset), an exhaustion check, lazy iteration, and one-pass visiting.
//!
//! Both iterator forms poison on the first error: once an error item has
//! been yielded, every later call yields nothing, even if bytes remain.

use vstd::prelude::*;
use crate::error::{BinaryReaderError, ErrorKind, Result};
use crate::operator::{Operator, spec_read_operator};
use crate::reader::BinaryReader;
use crate::visitor::VisitOperator;

verus! {

/// A reader for one function body's operators, scoped to exactly the bytes
/// of that body (trailing `end` included).
#[derive(Clone)]
pub struct OperatorsReader<'a> {
    reader: BinaryReader<'a>,
}

impl<'a> OperatorsReader<'a> {
    /// The bytes in scope.
    pub closed spec fn spec_data(&self) -> Seq<u8> {
        self.reader.spec_data()
    }

    /// The current read position, as an index into `spec_data()`.
    pub closed spec fn spec_pos(&self) -> int {
        self.reader.spec_pos()
    }

    /// The absolute offset of the first byte in scope.
    pub closed spec fn spec_offset(&self) -> int {
        self.reader.spec_offset()
    }

    /// Well-formedness, inherited from the cursor.
    pub closed spec fn wf(&self) -> bool {
        self.reader.wf()
    }

    /// Scopes a reader to the given cursor.
    pub fn new(reader: BinaryReader<'a>) -> (r: OperatorsReader<'a>)
        requires
            reader.wf(),
        ensures
            r.wf(),
            r.spec_data() == reader.spec_data(),
            r.spec_pos() == reader.spec_pos(),
            r.spec_offset() == reader.spec_offset(),
    {
        OperatorsReader { reader }
    }

    /// Determines if the reader is at the end of the operators.
    pub fn eof(&self) -> (r: bool)
        requires
            self.wf(),
        ensures
            r == (self.spec_pos() == self.spec_data().len()),
    {
        self.reader.eof()
    }

    /// Gets the original position of the reader.
    pub fn original_position(&self) -> (r: usize)
        requires
            self.wf(),
        ensures
            r as int == self.spec_offset() + self.spec_pos(),
    {
        self.reader.original_position()
    }

    /// Ensures the reader is at the end: succeeds iff every byte in scope
    /// has been consumed, and otherwise fails with a trailing-data error
    /// citing the offset of the first unconsumed byte.
    pub fn ensure_end(&self) -> (r: Result<()>)
        requires
            self.wf(),
        ensures
            r is Ok <==> self.spec_pos() == self.spec_data().len(),
            r matches Err(e) ==> e.kind == ErrorKind::TrailingData
                && e.offset as int == self.spec_offset() + self.spec_pos(),
    {
        if self.eof() {
            return Ok(());
        }
        Err(BinaryReaderError::new(ErrorKind::TrailingData, self.reader.original_position()))
    }

    /// Reads one operator, advancing the cursor past it; returns exactly
    /// the instruction the bytes encode, and fails exactly on malformed
    /// input.
    pub fn read(&mut self) -> (r: Result<Operator<'a>>)
        requires
            old(self).wf(),
        ensures
            final(self).wf(),
            final(self).spec_data() == old(self).spec_data(),
            final(self).spec_offset() == old(self).spec_offset(),
            final(self).spec_pos() >= old(self).spec_pos(),
            match spec_read_operator(old(self).spec_data(), old(self).spec_pos()) {
                Some(ve) => r matches Ok(op) && op@ == ve.0 && op.wf()
                    && final(self).spec_pos() == ve.1,
                None => r is Err,
            },
    {
        self.reader.read_operator()
    }

    /// Reads one operator together with the byte offset at which it began.
    /// Offsets are monotonically non-decreasing across successive reads.
    pub fn read_with_offset(&mut self) -> (r: Result<(Operator<'a>, usize)>)
        requires
            old(self).wf(),
        ensures
            final(self).wf(),
            final(self).spec_data() == old(self).spec_data(),
            final(self).spec_offset() == old(self).spec_offset(),
            final(self).spec_pos() >= old(self).spec_pos(),
            match spec_read_operator(old(self).spec_data(), old(self).spec_pos()) {
                Some(ve) => r matches Ok(p) && p.0@ == ve.0 && p.0.wf()
                    && p.1 as int == old(self).spec_offset() + old(self).spec_pos()
                    && final(self).spec_pos() == ve.1,
                None => r is Err,
            },
    {
        let pos: usize = self.reader.original_position();
        let op: Operator<'a> = match self.read() {
            Ok(op) => op,
            Err(e) => return Err(e),
        };
        Ok((op, pos))
    }

    /// Decodes one operator and immediately dispatches it to the matching
    /// visitor method in one pass, without materializing an [`Operator`]
    /// value; the cursor advances exactly as [`Self::read`] would on the
    /// same bytes, and both paths succeed on exactly the same inputs.
    pub fn visit_operator<T: VisitOperator<'a>>(&mut self, visitor: &mut T) -> (r: Result<
        T::Output,
    >)
        requires
            old(self).wf(),
        ensures
            final(self).wf(),
            final(self).spec_data() == old(self).spec_data(),
            final(self).spec_offset() == old(self).spec_offset(),
            final(self).spec_pos() >= old(self).spec_pos(),
            match spec_read_operator(old(self).spec_data(), old(self).spec_pos()) {
                Some(ve) => r is Ok && final(self).spec_pos() == ve.1,
                None => r is Err,
            },
    {
        self.reader.visit_operator(visitor)
    }

    /// Gets a copy of the current cursor, sharing the same underlying
    /// read-only buffer.
    pub fn get_binary_reader(&self) -> (r: BinaryReader<'a>)
        ensures
            r.spec_data() == self.spec_data(),
            r.spec_pos() == self.spec_pos(),
            r.spec_offset() == self.spec_offset(),
            self.wf() ==> r.wf(),
    {
        self.reader
    }

    /// Returns whether exactly an `end` opcode followed by the end of input
    /// remains in this reader.
    pub fn is_end_then_eof(&self) -> (r: bool)
        requires
            self.wf(),
        ensures
            r == (self.spec_pos() + 1 == self.spec_data().len()
                && self.spec_data()[self.spec_pos()] == 0x0b),
    {
        self.reader.is_end_then_eof()
    }

    /// Converts to a lazy, finite, non-restartable iterator of operators,
    /// which poisons permanently after the first error it yields.
    pub fn into_iter(self) -> (r: OperatorsIterator<'a>)
        ensures
            r.spec_data() == self.spec_data(),
            r.spec_pos() == self.spec_pos(),
            r.spec_offset() == self.spec_offset(),
            !r.spec_err(),
            self.wf() ==> r.wf(),
    {
        OperatorsIterator { reader: self, err: false }
    }

    /// Converts to an iterator of operators paired with the byte offset at
    /// which each began, with the same poisoning contract as
    /// [`Self::into_iter`].
    pub fn into_iter_with_offsets(self) -> (r: OperatorsIteratorWithOffsets<'a>)
        ensures
            r.spec_data() == self.spec_data(),
            r.spec_pos() == self.spec_pos(),
            r.spec_offset() == self.spec_offset(),
            !r.spec_err(),
            self.wf() ==> r.wf(),
    {
        OperatorsIteratorWithOffsets { reader: self, err: false }
    }
}

/// A lazy iterator over a function body's operators, yielding decoded
/// instructions until the end of input or until a decode fails; after the
/// first yielded error it is permanently exhausted.
pub struct OperatorsIterator<'a> {
    reader: OperatorsReader<'a>,
    err: bool,
}

impl<'a> OperatorsIterator<'a> {
    /// The bytes in scope.
    pub closed spec fn spec_data(&self) -> Seq<u8> {
        self.reader.spec_data()
    }

    /// The current read position.
    pub closed spec fn spec_pos(&self) -> int {
        self.reader.spec_pos()
    }

    /// The absolute offset of the first byte in scope.
    pub closed spec fn spec_offset(&self) -> int {
        self.reader.spec_offset()
    }

    /// True once an error has been yielded: the poison latch.
    pub closed spec fn spec_err(&self) -> bool {
        self.err
    }

    /// Well-formedness, inherited from the cursor.
    pub closed spec fn wf(&self) -> bool {
        self.reader.wf()
    }

    /// Yields the next decoded operator, or an error, or nothing once the
    /// input is exhausted or an error has ever been yielded. The poison
    /// latch is set exactly by yielding an error, and once set the iterator
    /// never changes again.
    pub fn next(&mut self) -> (r: Option<Result<Operator<'a>>>)
        requires
            old(self).wf(),
        ensures
            final(self).wf(),
            final(self).spec_data() == old(self).spec_data(),
            final(self).spec_offset() == old(self).spec_offset(),
            final(self).spec_pos() >= old(self).spec_pos(),
            old(self).spec_err() ==> (r is None && *final(self) == *old(self)),
            (!old(self).spec_err() && old(self).spec_pos() == old(self).spec_data().len())
                ==> (r is None && *final(self) == *old(self)),
            (!old(self).spec_err() && old(self).spec_pos() < old(self).spec_data().len()) ==> (
            match spec_read_operator(old(self).spec_data(), old(self).spec_pos()) {
                Some(ve) => r matches Some(x) && x matches Ok(op) && op@ == ve.0 && op.wf()
                    && final(self).spec_pos() == ve.1,
                None => r matches Some(x) && x is Err,
            }),
            final(self).spec_err() == (old(self).spec_err() || (r matches Some(x) && x is Err)),
    {
        if self.err || self.reader.eof() {
            return None;
        }
        let result: Result<Operator<'a>> = self.reader.read();
        self.err = result.is_err();
        Some(result)
    }
}

/// Like [`OperatorsIterator`], with each item carrying the byte offset at
/// which the instruction began; poisons identically.
pub struct OperatorsIteratorWithOffsets<'a> {
    reader: OperatorsReader<'a>,
    err: bool,
}

impl<'a> OperatorsIteratorWithOffsets<'a> {
    /// The bytes in scope.
    pub closed spec fn spec_data(&self) -> Seq<u8> {
        self.reader.spec_data()
    }

    /// The current read position.
    pub closed spec fn spec_pos(&self) -> int {
        self.reader.spec_pos()
    }

    /// The absolute offset of the first byte in scope.
    pub closed spec fn spec_offset(&self) -> int {
        self.reader.spec_offset()
    }

    /// True once an error has been yielded: the poison latch.
    pub closed spec fn spec_err(&self) -> bool {
        self.err
    }

    /// Well-formedness, inherited from the cursor.
    pub closed spec fn wf(&self) -> bool {
        self.reader.wf()
    }

    /// Yields the next decoded operator with the byte offset at which it
    /// began, under the same poisoning contract as
    /// [`OperatorsIterator::next`].
    pub fn next(&mut self) -> (r: Option<Result<(Operator<'a>, usize)>>)
        requires
            old(self).wf(),
        ensures
            final(self).wf(),
            final(self).spec_data() == old(self).spec_data(),
            final(self).spec_offset() == old(self).spec_offset(),
            final(self).spec_pos() >= old(self).spec_pos(),
            old(self).spec_err() ==> (r is None && *final(self) == *old(self)),
            (!old(self).spec_err() && old(self).spec_pos() == old(self).spec_data().len())
                ==> (r is None && *final(self) == *old(self)),
            (!old(self).spec_err() && old(self).spec_pos() < old(self).spec_data().len()) ==> (
            match spec_read_operator(old(self).spec_data(), old(self).spec_pos()) {
                Some(ve) => r matches Some(x) && x matches Ok(p) && p.0@ == ve.0 && p.0.wf()
                    && p.1 as int == old(self).spec_offset() + old(self).spec_pos()
                    && final(self).spec_pos() == ve.1,
                None => r matches Some(x) && x is Err,
            }),
            final(self).spec_err() == (old(self).spec_err() || (r matches Some(x) && x is Err)),
    {
        if self.err || self.reader.eof() {
            return None;
        }
        let result: Result<(Operator<'a>, usize)> = self.reader.read_with_offset();
        self.err = result.is_err();
        Some(result)
    }
}

} // verus!
