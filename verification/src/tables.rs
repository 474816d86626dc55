//! Structured sub-tables nested inside specific instructions: the exception
//! dispatch table (`TryTable` of `Catch` clauses) and the resumption dispatch
//! table (`ResumeTable` of `Handle` clauses).
//!
//! Both are explicitly counted sequences of leading-byte-tagged records. The
//! declared count is checked against a fixed bound before any storage is
//! sized by it, so a crafted tiny input cannot force a large allocation.

use vstd::prelude::*;
use crate::error::{BinaryReaderError, ErrorKind, Result};
use crate::immediates::{BlockType, spec_block_type};
use crate::reader::{BinaryReader, spec_u8, spec_var_u32};

verus! {

/// The most catch clauses one exception dispatch table may declare.
pub const MAX_WASM_CATCHES: u32 = 10000;

/// The most handle clauses one resumption dispatch table may declare.
pub const MAX_WASM_HANDLERS: u32 = 10000;

/// A catch clause of an exception dispatch table.
#[derive(Copy, Clone, Debug, Eq, PartialEq)]
pub enum Catch {
    /// Catch an exception of the given tag and branch to the label.
    One { tag: u32, label: u32 },
    /// Like `One`, and pass a reference to the exception along.
    OneRef { tag: u32, label: u32 },
    /// Catch every exception and branch to the label.
    All { label: u32 },
    /// Like `All`, and pass a reference to the exception along.
    AllRef { label: u32 },
}

/// An exception dispatch table: the block type of the protected region and
/// its ordered catch clauses.
#[derive(Clone, Debug, Eq, PartialEq)]
pub struct TryTable {
    /// The block type describing the protected block itself.
    pub ty: BlockType,
    /// Outer blocks which will receive exceptions.
    pub catches: Vec<Catch>,
}

/// A handle clause of a resumption dispatch table.
#[derive(Copy, Clone, Debug, Eq, PartialEq)]
pub enum Handle {
    /// Suspensions with the given tag branch to the label.
    OnLabel { tag: u32, label: u32 },
    /// Suspensions with the given tag switch to the suspended computation.
    OnSwitch { tag: u32 },
}

/// A resumption dispatch table: its ordered handle clauses.
#[derive(Clone, Debug, Eq, PartialEq)]
pub struct ResumeTable {
    /// Either the outer blocks which will handle suspensions, or
    /// "switch-to" handlers.
    pub handlers: Vec<Handle>,
}

// ---------------------------------------------------------------------------
// Spec-level decoding.
// ---------------------------------------------------------------------------

/// One catch clause: a leading byte tag, then its indices.
pub open spec fn spec_catch(s: Seq<u8>, pos: int) -> Option<(Catch, int)> {
    match spec_u8(s, pos) {
        None => None,
        Some((b, p1)) => if b == 0x00 || b == 0x01 {
            match spec_var_u32(s, p1) {
                None => None,
                Some((tag, p2)) => match spec_var_u32(s, p2) {
                    None => None,
                    Some((label, p3)) => if b == 0x00 {
                        Some((Catch::One { tag, label }, p3))
                    } else {
                        Some((Catch::OneRef { tag, label }, p3))
                    },
                },
            }
        } else if b == 0x02 || b == 0x03 {
            match spec_var_u32(s, p1) {
                None => None,
                Some((label, p2)) => if b == 0x02 {
                    Some((Catch::All { label }, p2))
                } else {
                    Some((Catch::AllRef { label }, p2))
                },
            }
        } else {
            None
        },
    }
}

/// `n` consecutive catch clauses.
pub open spec fn spec_catches(s: Seq<u8>, pos: int, n: nat) -> Option<(Seq<Catch>, int)>
    decreases n,
{
    if n == 0 {
        Some((Seq::empty(), pos))
    } else {
        match spec_catch(s, pos) {
            None => None,
            Some((c, p1)) => match spec_catches(s, p1, (n - 1) as nat) {
                None => None,
                Some((rest, end)) => Some((seq![c] + rest, end)),
            },
        }
    }
}

/// An exception dispatch table: a block type, a count, then that many catch
/// clauses; a count over [`MAX_WASM_CATCHES`] is malformed.
pub open spec fn spec_try_table(s: Seq<u8>, pos: int) -> Option<((BlockType, Seq<Catch>), int)> {
    match spec_block_type(s, pos) {
        None => None,
        Some((ty, p1)) => match spec_var_u32(s, p1) {
            None => None,
            Some((cnt, p2)) => if cnt > MAX_WASM_CATCHES {
                None
            } else {
                match spec_catches(s, p2, cnt as nat) {
                    None => None,
                    Some((cs, end)) => Some(((ty, cs), end)),
                }
            },
        },
    }
}

/// One handle clause: a leading byte tag, then its indices.
pub open spec fn spec_handle(s: Seq<u8>, pos: int) -> Option<(Handle, int)> {
    match spec_u8(s, pos) {
        None => None,
        Some((b, p1)) => if b == 0x00 {
            match spec_var_u32(s, p1) {
                None => None,
                Some((tag, p2)) => match spec_var_u32(s, p2) {
                    None => None,
                    Some((label, p3)) => Some((Handle::OnLabel { tag, label }, p3)),
                },
            }
        } else if b == 0x01 {
            match spec_var_u32(s, p1) {
                None => None,
                Some((tag, p2)) => Some((Handle::OnSwitch { tag }, p2)),
            }
        } else {
            None
        },
    }
}

/// `n` consecutive handle clauses.
pub open spec fn spec_handles(s: Seq<u8>, pos: int, n: nat) -> Option<(Seq<Handle>, int)>
    decreases n,
{
    if n == 0 {
        Some((Seq::empty(), pos))
    } else {
        match spec_handle(s, pos) {
            None => None,
            Some((h, p1)) => match spec_handles(s, p1, (n - 1) as nat) {
                None => None,
                Some((rest, end)) => Some((seq![h] + rest, end)),
            },
        }
    }
}

/// A resumption dispatch table: a count, then that many handle clauses; a
/// count over [`MAX_WASM_HANDLERS`] is malformed.
pub open spec fn spec_resume_table(s: Seq<u8>, pos: int) -> Option<(Seq<Handle>, int)> {
    match spec_var_u32(s, pos) {
        None => None,
        Some((cnt, p1)) => if cnt > MAX_WASM_HANDLERS {
            None
        } else {
            match spec_handles(s, p1, cnt as nat) {
                None => None,
                Some((hs, end)) => Some((hs, end)),
            }
        },
    }
}

// ---------------------------------------------------------------------------
// Executable decoding.
// ---------------------------------------------------------------------------

impl Catch {
    /// Decodes one catch clause. A leading byte outside the clause
    /// enumeration fails with an invalid-leading-byte error naming "catch"
    /// and the byte's offset.
    pub fn from_reader(reader: &mut BinaryReader) -> (r: Result<Catch>)
        requires
            old(reader).wf(),
        ensures
            final(reader).wf(),
            final(reader).spec_data() == old(reader).spec_data(),
            final(reader).spec_offset() == old(reader).spec_offset(),
            final(reader).spec_pos() >= old(reader).spec_pos(),
            match spec_catch(old(reader).spec_data(), old(reader).spec_pos()) {
                Some(ve) => r matches Ok(v) && v == ve.0 && final(reader).spec_pos() == ve.1,
                None => r is Err,
            },
            (spec_u8(old(reader).spec_data(), old(reader).spec_pos()) matches Some(bv)
                && bv.0 > 0x03) ==> (r matches Err(e)
                && e.kind == (ErrorKind::InvalidLeadingByte {
                    byte: spec_u8(old(reader).spec_data(), old(reader).spec_pos())->Some_0.0,
                    context: "catch",
                })
                && e.offset as int == old(reader).spec_offset() + old(reader).spec_pos()),
    {
        let pos: usize = reader.original_position();
        let b: u8 = match reader.read_u8() {
            Ok(b) => b,
            Err(e) => return Err(e),
        };
        match b {
            0x00 => {
                let tag: u32 = match reader.read_var_u32() {
                    Ok(v) => v,
                    Err(e) => return Err(e),
                };
                let label: u32 = match reader.read_var_u32() {
                    Ok(v) => v,
                    Err(e) => return Err(e),
                };
                Ok(Catch::One { tag, label })
            },
            0x01 => {
                let tag: u32 = match reader.read_var_u32() {
                    Ok(v) => v,
                    Err(e) => return Err(e),
                };
                let label: u32 = match reader.read_var_u32() {
                    Ok(v) => v,
                    Err(e) => return Err(e),
                };
                Ok(Catch::OneRef { tag, label })
            },
            0x02 => {
                let label: u32 = match reader.read_var_u32() {
                    Ok(v) => v,
                    Err(e) => return Err(e),
                };
                Ok(Catch::All { label })
            },
            0x03 => {
                let label: u32 = match reader.read_var_u32() {
                    Ok(v) => v,
                    Err(e) => return Err(e),
                };
                Ok(Catch::AllRef { label })
            },
            _ => Err(BinaryReaderError::new(
                ErrorKind::InvalidLeadingByte { byte: b, context: "catch" },
                pos,
            )),
        }
    }
}

impl Handle {
    /// Decodes one handle clause. A leading byte outside the clause
    /// enumeration fails with an invalid-leading-byte error naming
    /// "on clause" and the byte's offset.
    pub fn from_reader(reader: &mut BinaryReader) -> (r: Result<Handle>)
        requires
            old(reader).wf(),
        ensures
            final(reader).wf(),
            final(reader).spec_data() == old(reader).spec_data(),
            final(reader).spec_offset() == old(reader).spec_offset(),
            final(reader).spec_pos() >= old(reader).spec_pos(),
            match spec_handle(old(reader).spec_data(), old(reader).spec_pos()) {
                Some(ve) => r matches Ok(v) && v == ve.0 && final(reader).spec_pos() == ve.1,
                None => r is Err,
            },
            (spec_u8(old(reader).spec_data(), old(reader).spec_pos()) matches Some(bv)
                && bv.0 > 0x01) ==> (r matches Err(e)
                && e.kind == (ErrorKind::InvalidLeadingByte {
                    byte: spec_u8(old(reader).spec_data(), old(reader).spec_pos())->Some_0.0,
                    context: "on clause",
                })
                && e.offset as int == old(reader).spec_offset() + old(reader).spec_pos()),
    {
        let pos: usize = reader.original_position();
        let b: u8 = match reader.read_u8() {
            Ok(b) => b,
            Err(e) => return Err(e),
        };
        match b {
            0x00 => {
                let tag: u32 = match reader.read_var_u32() {
                    Ok(v) => v,
                    Err(e) => return Err(e),
                };
                let label: u32 = match reader.read_var_u32() {
                    Ok(v) => v,
                    Err(e) => return Err(e),
                };
                Ok(Handle::OnLabel { tag, label })
            },
            0x01 => {
                let tag: u32 = match reader.read_var_u32() {
                    Ok(v) => v,
                    Err(e) => return Err(e),
                };
                Ok(Handle::OnSwitch { tag })
            },
            _ => Err(BinaryReaderError::new(
                ErrorKind::InvalidLeadingByte { byte: b, context: "on clause" },
                pos,
            )),
        }
    }
}

impl TryTable {
    /// Decodes an exception dispatch table: a block type, then an explicitly
    /// counted, bounded sequence of catch clauses. A declared count over
    /// [`MAX_WASM_CATCHES`] fails with a size-limit error before any entry
    /// is decoded or any storage sized by the count is allocated.
    #[verifier::loop_isolation(false)]
    pub fn from_reader(reader: &mut BinaryReader) -> (r: Result<TryTable>)
        requires
            old(reader).wf(),
        ensures
            final(reader).wf(),
            final(reader).spec_data() == old(reader).spec_data(),
            final(reader).spec_offset() == old(reader).spec_offset(),
            final(reader).spec_pos() >= old(reader).spec_pos(),
            match spec_try_table(old(reader).spec_data(), old(reader).spec_pos()) {
                Some(ve) => r matches Ok(v) && v.ty == ve.0.0 && v.catches@ == ve.0.1
                    && final(reader).spec_pos() == ve.1,
                None => r is Err,
            },
            ({
                let bt = spec_block_type(old(reader).spec_data(), old(reader).spec_pos());
                bt is Some && {
                    let cnt = spec_var_u32(old(reader).spec_data(), bt->Some_0.1);
                    cnt is Some && cnt->Some_0.0 > MAX_WASM_CATCHES
                }
            }) ==> (r matches Err(e)
                && e.kind == (ErrorKind::SizeLimitExceeded { context: "catches" })),
    {
        let ghost s = old(reader).spec_data();
        let ty: BlockType = match reader.read_block_type() {
            Ok(v) => v,
            Err(e) => return Err(e),
        };
        let count: u32 = match reader.read_var_u32() {
            Ok(v) => v,
            Err(e) => return Err(e),
        };
        if count > MAX_WASM_CATCHES {
            return Err(BinaryReaderError::new(
                ErrorKind::SizeLimitExceeded { context: "catches" },
                reader.original_position(),
            ));
        }
        let ghost start = reader.spec_pos();
        let mut catches: Vec<Catch> = Vec::new();
        let mut i: u32 = 0;
        while i < count
            invariant
                reader.wf(),
                reader.spec_data() == s,
                reader.spec_offset() == old(reader).spec_offset(),
                reader.spec_pos() >= old(reader).spec_pos(),
                i <= count,
                spec_catches(s, start, count as nat) == (
                    match spec_catches(s, reader.spec_pos(), (count - i) as nat) {
                        Some(suf) => Some((catches@ + suf.0, suf.1)),
                        None => None::<(Seq<Catch>, int)>,
                    }
                ),
            decreases count - i,
        {
            let ghost cur = reader.spec_pos();
            let ghost acc = catches@;
            let c: Catch = match Catch::from_reader(reader) {
                Ok(c) => c,
                Err(e) => {
                    proof {
                        assert(spec_catches(s, cur, (count - i) as nat) is None);
                    }
                    return Err(e);
                },
            };
            catches.push(c);
            i = i + 1;
            proof {
                let k = (count - i + 1) as nat;
                assert(spec_catches(s, cur, k) matches Some(suf)
                    ==> suf.0 == seq![c] + spec_catches(s, reader.spec_pos(), (k - 1) as nat)->Some_0.0);
                match spec_catches(s, reader.spec_pos(), (count - i) as nat) {
                    Some(suf2) => {
                        assert(acc + (seq![c] + suf2.0) =~= (acc + seq![c]) + suf2.0);
                        assert(catches@ =~= acc + seq![c]);
                    },
                    None => {},
                }
            }
        }
        Ok(TryTable { ty, catches })
    }
}

impl ResumeTable {
    /// Returns the number of entries in the table.
    pub fn len(&self) -> (r: usize)
        ensures
            r == self.handlers@.len(),
    {
        self.handlers.len()
    }

    /// Decodes a resumption dispatch table: an explicitly counted, bounded
    /// sequence of handle clauses. A declared count over
    /// [`MAX_WASM_HANDLERS`] fails with a size-limit error before any entry
    /// is decoded or any storage sized by the count is allocated.
    #[verifier::loop_isolation(false)]
    pub fn from_reader(reader: &mut BinaryReader) -> (r: Result<ResumeTable>)
        requires
            old(reader).wf(),
        ensures
            final(reader).wf(),
            final(reader).spec_data() == old(reader).spec_data(),
            final(reader).spec_offset() == old(reader).spec_offset(),
            final(reader).spec_pos() >= old(reader).spec_pos(),
            match spec_resume_table(old(reader).spec_data(), old(reader).spec_pos()) {
                Some(ve) => r matches Ok(v) && v.handlers@ == ve.0
                    && final(reader).spec_pos() == ve.1,
                None => r is Err,
            },
            (spec_var_u32(old(reader).spec_data(), old(reader).spec_pos()) matches Some(cv)
                && cv.0 > MAX_WASM_HANDLERS) ==> (r matches Err(e)
                && e.kind == (ErrorKind::SizeLimitExceeded { context: "resume table" })),
    {
        let ghost s = old(reader).spec_data();
        let count: u32 = match reader.read_var_u32() {
            Ok(v) => v,
            Err(e) => return Err(e),
        };
        if count > MAX_WASM_HANDLERS {
            return Err(BinaryReaderError::new(
                ErrorKind::SizeLimitExceeded { context: "resume table" },
                reader.original_position(),
            ));
        }
        let ghost start = reader.spec_pos();
        let mut handlers: Vec<Handle> = Vec::new();
        let mut i: u32 = 0;
        while i < count
            invariant
                reader.wf(),
                reader.spec_data() == s,
                reader.spec_offset() == old(reader).spec_offset(),
                reader.spec_pos() >= old(reader).spec_pos(),
                i <= count,
                spec_handles(s, start, count as nat) == (
                    match spec_handles(s, reader.spec_pos(), (count - i) as nat) {
                        Some(suf) => Some((handlers@ + suf.0, suf.1)),
                        None => None::<(Seq<Handle>, int)>,
                    }
                ),
            decreases count - i,
        {
            let ghost cur = reader.spec_pos();
            let ghost acc = handlers@;
            let h: Handle = match Handle::from_reader(reader) {
                Ok(h) => h,
                Err(e) => {
                    proof {
                        assert(spec_handles(s, cur, (count - i) as nat) is None);
                    }
                    return Err(e);
                },
            };
            handlers.push(h);
            i = i + 1;
            proof {
                let k = (count - i + 1) as nat;
                assert(spec_handles(s, cur, k) matches Some(suf)
                    ==> suf.0 == seq![h] + spec_handles(s, reader.spec_pos(), (k - 1) as nat)->Some_0.0);
                match spec_handles(s, reader.spec_pos(), (count - i) as nat) {
                    Some(suf2) => {
                        assert(acc + (seq![h] + suf2.0) =~= (acc + seq![h]) + suf2.0);
                        assert(handlers@ =~= acc + seq![h]);
                    },
                    None => {},
                }
            }
        }
        Ok(ResumeTable { handlers })
    }
}

} // verus!
