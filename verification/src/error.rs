//! The single error family of the decoder.
//!
//! Every failure carries the absolute byte offset at which it was detected and
//! a structured kind; [`BinaryReaderError::message`] renders the kind as a
//! human-readable description.

use vstd::prelude::*;

verus! {

/// What went wrong during a decode step.
#[derive(Debug, Clone, Copy, PartialEq, Eq)]
pub enum ErrorKind {
    /// The input ended before a fixed-width or variable-length field was
    /// complete.
    UnexpectedEof,
    /// A variable-length integer used more bytes than its type allows.
    IntegerTooLong,
    /// A variable-length integer's value does not fit its target type.
    IntegerTooLarge,
    /// A memory-access immediate's flag word has bits set beyond the
    /// alignment and memory-index fields.
    MalformedMemFlags,
    /// The leading byte of a closed enumeration (an opcode, a catch clause,
    /// an on clause, a block type, a memory ordering) matched no variant.
    /// `context` names the enumeration being decoded.
    InvalidLeadingByte { byte: u8, context: &'static str },
    /// An escape-prefixed sub-opcode with no matching instruction.
    /// `context` names the extended opcode space.
    UnknownSubOpcode { sub_opcode: u32, context: &'static str },
    /// A counted sequence declared more entries than the bound configured
    /// for it; `context` names the sequence.
    SizeLimitExceeded { context: &'static str },
    /// `ensure_end` was called while bytes remained in scope.
    TrailingData,
}

/// An error produced while decoding a function body, carrying the absolute
/// byte offset at which it was detected.
#[derive(Debug, Clone, Copy, PartialEq, Eq)]
pub struct BinaryReaderError {
    /// The structured kind of the failure.
    pub kind: ErrorKind,
    /// Absolute byte offset at which the failure was detected.
    pub offset: usize,
}

impl BinaryReaderError {
    /// Builds an error of the given kind at the given absolute offset.
    pub fn new(kind: ErrorKind, offset: usize) -> (r: BinaryReaderError)
        ensures
            r.kind == kind,
            r.offset == offset,
    {
        BinaryReaderError { kind, offset }
    }

    /// A human-readable description of the failure.
    pub fn message(&self) -> (r: &'static str)
    {
        match self.kind {
            ErrorKind::UnexpectedEof => "unexpected end of input",
            ErrorKind::IntegerTooLong => "integer representation too long",
            ErrorKind::IntegerTooLarge => "integer too large",
            ErrorKind::MalformedMemFlags => "malformed memop flags",
            ErrorKind::InvalidLeadingByte { .. } => "invalid leading byte",
            ErrorKind::UnknownSubOpcode { .. } => "unknown sub-opcode",
            ErrorKind::SizeLimitExceeded { .. } => "count exceeds the limit",
            ErrorKind::TrailingData => "unexpected data at the end of operators",
        }
    }
}

/// The result of a decode step.
pub type Result<T> = core::result::Result<T, BinaryReaderError>;

} // verus!
