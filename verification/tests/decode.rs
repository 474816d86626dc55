//! Round-trip decoding of hand-encoded instructions, and the diagnostic
//! behaviour of the decoder on malformed input.

use wasm_operators::branch::BrTable;
use wasm_operators::error::ErrorKind;
use wasm_operators::immediates::{BlockType, MemArg, Ordering, ValType};
use wasm_operators::operator::Operator;
use wasm_operators::operators_reader::OperatorsReader;
use wasm_operators::reader::BinaryReader;
use wasm_operators::tables::{Catch, Handle, ResumeTable, TryTable};

fn read_one(data: &[u8]) -> Operator<'_> {
    let mut reader = BinaryReader::new(data, 0);
    reader.read_operator().expect("operator")
}

#[test]
fn decodes_simple_operators() {
    assert_eq!(read_one(&[0x00]), Operator::Unreachable);
    assert_eq!(read_one(&[0x01]), Operator::Nop);
    assert_eq!(read_one(&[0x05]), Operator::Else);
    assert_eq!(read_one(&[0x0b]), Operator::End);
    assert_eq!(read_one(&[0x0f]), Operator::Return);
    assert_eq!(read_one(&[0x1a]), Operator::Drop);
    assert_eq!(read_one(&[0x1b]), Operator::Select);
    assert_eq!(read_one(&[0x45]), Operator::I32Eqz);
    assert_eq!(read_one(&[0x6a]), Operator::I32Add);
    assert_eq!(read_one(&[0x6b]), Operator::I32Sub);
    assert_eq!(read_one(&[0x7c]), Operator::I64Add);
}

#[test]
fn decodes_block_types() {
    assert_eq!(read_one(&[0x02, 0x40]), Operator::Block { blockty: BlockType::Empty });
    assert_eq!(
        read_one(&[0x03, 0x7f]),
        Operator::Loop { blockty: BlockType::Type(ValType::I32) }
    );
    assert_eq!(
        read_one(&[0x04, 0x7b]),
        Operator::If { blockty: BlockType::Type(ValType::V128) }
    );
    assert_eq!(read_one(&[0x02, 0x03]), Operator::Block { blockty: BlockType::FuncType(3) });
}

#[test]
fn rejects_unknown_block_type_byte() {
    let mut reader = BinaryReader::new(&[0x02, 0x6e], 0);
    let err = reader.read_operator().unwrap_err();
    assert_eq!(err.kind, ErrorKind::InvalidLeadingByte { byte: 0x6e, context: "block type" });
}

#[test]
fn decodes_indices_and_calls() {
    assert_eq!(read_one(&[0x0c, 0x00]), Operator::Br { relative_depth: 0 });
    assert_eq!(read_one(&[0x0d, 0x2a]), Operator::BrIf { relative_depth: 42 });
    assert_eq!(
        read_one(&[0x10, 0xe5, 0x8e, 0x26]),
        Operator::Call { function_index: 624485 }
    );
    assert_eq!(
        read_one(&[0x11, 0x05, 0x00]),
        Operator::CallIndirect { type_index: 5, table_index: 0 }
    );
    assert_eq!(read_one(&[0x20, 0x07]), Operator::LocalGet { local_index: 7 });
    assert_eq!(read_one(&[0x21, 0x00]), Operator::LocalSet { local_index: 0 });
    assert_eq!(read_one(&[0x22, 0x01]), Operator::LocalTee { local_index: 1 });
    assert_eq!(read_one(&[0x23, 0x09]), Operator::GlobalGet { global_index: 9 });
    assert_eq!(read_one(&[0x24, 0x02]), Operator::GlobalSet { global_index: 2 });
    assert_eq!(read_one(&[0x3f, 0x00]), Operator::MemorySize { mem: 0 });
    assert_eq!(read_one(&[0x40, 0x01]), Operator::MemoryGrow { mem: 1 });
}

#[test]
fn decodes_memargs() {
    assert_eq!(
        read_one(&[0x28, 0x02, 0x04]),
        Operator::I32Load {
            memarg: MemArg { align: 2, max_align: 2, offset: 4, memory: 0 },
        }
    );
    assert_eq!(
        read_one(&[0x37, 0x03, 0x00]),
        Operator::I64Store {
            memarg: MemArg { align: 3, max_align: 3, offset: 0, memory: 0 },
        }
    );
    // Bit six of the flag word marks an explicit memory index.
    assert_eq!(
        read_one(&[0x28, 0x42, 0x05, 0x08]),
        Operator::I32Load {
            memarg: MemArg { align: 2, max_align: 2, offset: 8, memory: 5 },
        }
    );
}

#[test]
fn rejects_malformed_memarg_flags() {
    let mut reader = BinaryReader::new(&[0x28, 0x80, 0x01], 0);
    let err = reader.read_operator().unwrap_err();
    assert_eq!(err.kind, ErrorKind::MalformedMemFlags);
}

#[test]
fn decodes_integer_constants() {
    assert_eq!(read_one(&[0x41, 0x05]), Operator::I32Const { value: 5 });
    assert_eq!(read_one(&[0x41, 0x7f]), Operator::I32Const { value: -1 });
    assert_eq!(read_one(&[0x41, 0xac, 0x02]), Operator::I32Const { value: 300 });
    assert_eq!(read_one(&[0x42, 0xe5, 0x8e, 0x26]), Operator::I64Const { value: 624485 });
    assert_eq!(read_one(&[0x42, 0x7f]), Operator::I64Const { value: -1 });
}

#[test]
fn rejects_overlong_and_oversized_integers() {
    // Six bytes for a 32-bit variable-length integer.
    let mut reader = BinaryReader::new(&[0x0c, 0x80, 0x80, 0x80, 0x80, 0x80, 0x01], 0);
    let err = reader.read_operator().unwrap_err();
    assert_eq!(err.kind, ErrorKind::IntegerTooLong);
    // Five bytes encoding 2^32, one past the 32-bit range.
    let mut reader = BinaryReader::new(&[0x0c, 0x80, 0x80, 0x80, 0x80, 0x10], 0);
    let err = reader.read_operator().unwrap_err();
    assert_eq!(err.kind, ErrorKind::IntegerTooLarge);
}

#[test]
fn rejects_truncated_input() {
    let mut reader = BinaryReader::new(&[0x10, 0x80], 0);
    let err = reader.read_operator().unwrap_err();
    assert_eq!(err.kind, ErrorKind::UnexpectedEof);
    assert_eq!(err.offset, 2);
}

#[test]
fn rejects_unknown_opcode_byte() {
    let mut reader = BinaryReader::new(&[0xf0], 0);
    let err = reader.read_operator().unwrap_err();
    assert_eq!(err.kind, ErrorKind::InvalidLeadingByte { byte: 0xf0, context: "operator" });
    assert_eq!(err.offset, 0);
}

#[test]
fn rejects_unknown_sub_opcodes() {
    let mut reader = BinaryReader::new(&[0xfc, 0x63], 0);
    let err = reader.read_operator().unwrap_err();
    assert_eq!(err.kind, ErrorKind::UnknownSubOpcode { sub_opcode: 99, context: "0xfc subopcode" });
    let mut reader = BinaryReader::new(&[0xfd, 0x63], 0);
    let err = reader.read_operator().unwrap_err();
    assert_eq!(err.kind, ErrorKind::UnknownSubOpcode { sub_opcode: 99, context: "0xfd subopcode" });
    let mut reader = BinaryReader::new(&[0xfe, 0x63], 0);
    let err = reader.read_operator().unwrap_err();
    assert_eq!(err.kind, ErrorKind::UnknownSubOpcode { sub_opcode: 99, context: "0xfe subopcode" });
}

#[test]
fn decodes_extended_opcode_spaces() {
    assert_eq!(read_one(&[0xfc, 0x09, 0x03]), Operator::DataDrop { data_index: 3 });
    assert_eq!(
        read_one(&[0xfc, 0x0a, 0x00, 0x01]),
        Operator::MemoryCopy { dst_mem: 0, src_mem: 1 }
    );
    assert_eq!(read_one(&[0xfc, 0x0b, 0x00]), Operator::MemoryFill { mem: 0 });
    assert_eq!(
        read_one(&[0xfd, 0x00, 0x04, 0x10]),
        Operator::V128Load {
            memarg: MemArg { align: 4, max_align: 4, offset: 16, memory: 0 },
        }
    );
    assert_eq!(
        read_one(&[0xfe, 0x10, 0x02, 0x00]),
        Operator::I32AtomicLoad {
            memarg: MemArg { align: 2, max_align: 2, offset: 0, memory: 0 },
        }
    );
}

#[test]
fn decodes_atomic_orderings() {
    assert_eq!(
        read_one(&[0xfe, 0x4f, 0x00, 0x07]),
        Operator::GlobalAtomicGet { ordering: Ordering::SeqCst, global_index: 7 }
    );
    assert_eq!(
        read_one(&[0xfe, 0x50, 0x01, 0x02]),
        Operator::GlobalAtomicSet { ordering: Ordering::AcqRel, global_index: 2 }
    );
}

#[test]
fn rejects_unknown_ordering_byte() {
    let mut reader = BinaryReader::new(&[0xfe, 0x4f, 0x05, 0x07], 0);
    let err = reader.read_operator().unwrap_err();
    assert_eq!(
        err.kind,
        ErrorKind::InvalidLeadingByte { byte: 0x05, context: "memory ordering" }
    );
    assert_eq!(err.offset, 2);
}

#[test]
fn decodes_try_table() {
    let op = read_one(&[0x1f, 0x40, 0x02, 0x00, 0x01, 0x02, 0x02, 0x00]);
    assert_eq!(
        op,
        Operator::TryTable {
            try_table: TryTable {
                ty: BlockType::Empty,
                catches: vec![Catch::One { tag: 1, label: 2 }, Catch::All { label: 0 }],
            },
        }
    );
}

#[test]
fn decodes_all_catch_forms() {
    let data: [u8; 4] = [0x01, 0x06, 0x07, 0x00];
    let mut reader = BinaryReader::new(&data[..3], 0);
    assert_eq!(
        Catch::from_reader(&mut reader).unwrap(),
        Catch::OneRef { tag: 6, label: 7 }
    );
    let mut reader = BinaryReader::new(&[0x03, 0x09], 0);
    assert_eq!(Catch::from_reader(&mut reader).unwrap(), Catch::AllRef { label: 9 });
}

#[test]
fn decodes_resume_tables() {
    let op = read_one(&[0xe3, 0x04, 0x02, 0x00, 0x01, 0x00, 0x01, 0x09]);
    assert_eq!(
        op,
        Operator::Resume {
            cont_type_index: 4,
            resume_table: ResumeTable {
                handlers: vec![Handle::OnLabel { tag: 1, label: 0 }, Handle::OnSwitch { tag: 9 }],
            },
        }
    );
    let op = read_one(&[0xe4, 0x04, 0x05, 0x01, 0x01, 0x03]);
    assert_eq!(
        op,
        Operator::ResumeThrow {
            cont_type_index: 4,
            tag_index: 5,
            resume_table: ResumeTable { handlers: vec![Handle::OnSwitch { tag: 3 }] },
        }
    );
}

#[test]
fn resume_table_len_counts_handlers() {
    let mut reader = BinaryReader::new(&[0x02, 0x00, 0x01, 0x00, 0x01, 0x09], 0);
    let table = ResumeTable::from_reader(&mut reader).unwrap();
    assert_eq!(table.len(), 2);
}

#[test]
fn rejects_unknown_handle_byte() {
    let mut reader = BinaryReader::new(&[0x04, 0x01], 0);
    let err = Handle::from_reader(&mut reader).unwrap_err();
    assert_eq!(err.kind, ErrorKind::InvalidLeadingByte { byte: 0x04, context: "on clause" });
    assert_eq!(err.offset, 0);
}

#[test]
fn reads_with_offsets() {
    let data: [u8; 2] = [0x01, 0x0b];
    let reader = BinaryReader::new(&data, 23);
    let mut op_reader = OperatorsReader::new(reader);
    assert_eq!(op_reader.read_with_offset().unwrap(), (Operator::Nop, 23));
    assert_eq!(op_reader.read_with_offset().unwrap(), (Operator::End, 24));
    assert!(op_reader.eof());
}

#[test]
fn iterates_with_offsets() {
    let data: [u8; 2] = [0x01, 0x0b];
    let reader = BinaryReader::new(&data, 20);
    let mut iter = OperatorsReader::new(reader).into_iter_with_offsets();
    assert_eq!(iter.next().unwrap().unwrap(), (Operator::Nop, 20));
    assert_eq!(iter.next().unwrap().unwrap(), (Operator::End, 21));
    assert!(iter.next().is_none());
}

#[test]
fn exposes_the_underlying_cursor() {
    let data: [u8; 2] = [0x01, 0x0b];
    let mut op_reader = OperatorsReader::new(BinaryReader::new(&data, 0));
    op_reader.read().unwrap();
    let mut cursor = op_reader.get_binary_reader();
    assert_eq!(cursor.read_u8().unwrap(), 0x0b);
}

#[test]
fn is_end_then_eof_sees_a_lone_end() {
    let data: [u8; 2] = [0x01, 0x0b];
    let mut op_reader = OperatorsReader::new(BinaryReader::new(&data, 0));
    assert!(!op_reader.is_end_then_eof());
    op_reader.read().unwrap();
    assert!(op_reader.is_end_then_eof());
    let empty = OperatorsReader::new(BinaryReader::new(&[], 0));
    assert!(!empty.is_end_then_eof());
}

#[test]
fn decodes_sixty_four_bit_memory_offsets() {
    // Offset 2^32, expressible only because offsets are 64-bit.
    let data: [u8; 8] = [0x29, 0x03, 0x80, 0x80, 0x80, 0x80, 0x10, 0x0b];
    let mut reader = BinaryReader::new(&data, 0);
    assert_eq!(
        reader.read_operator().unwrap(),
        Operator::I64Load {
            memarg: MemArg { align: 3, max_align: 3, offset: 1 << 32, memory: 0 },
        }
    );
    assert_eq!(reader.read_operator().unwrap(), Operator::End);
}

#[test]
fn decodes_multi_byte_function_type_indexes() {
    // Block type as a positive 33-bit integer: 624485.
    let data: [u8; 4] = [0x02, 0xe5, 0x8e, 0x26];
    assert_eq!(read_one(&data), Operator::Block { blockty: BlockType::FuncType(624485) });
}

#[test]
fn rejects_truncated_vector_constants() {
    let data: [u8; 5] = [0xfd, 0x0c, 0x01, 0x02, 0x03];
    let mut reader = BinaryReader::new(&data, 0);
    let err = reader.read_operator().unwrap_err();
    assert_eq!(err.kind, ErrorKind::UnexpectedEof);
}

#[test]
fn empty_body_is_eof_at_once() {
    let op_reader = OperatorsReader::new(BinaryReader::new(&[], 0));
    assert!(op_reader.eof());
    assert!(op_reader.ensure_end().is_ok());
    let mut iter = op_reader.into_iter();
    assert!(iter.next().is_none());
}

#[test]
fn br_table_equality_is_structural_over_remaining_bytes() {
    let a: [u8; 6] = [0x0e, 0x03, 0x00, 0x01, 0x02, 0x03];
    // The same encoding placed behind a leading instruction, so the label
    // span sits at a different offset in a different buffer.
    let b: [u8; 7] = [0x01, 0x0e, 0x03, 0x00, 0x01, 0x02, 0x03];
    let ta: BrTable = match read_one(&a) {
        Operator::BrTable { targets } => targets,
        other => panic!("expected a branch table, found {:?}", other),
    };
    let mut rb = BinaryReader::new(&b, 10);
    rb.read_operator().unwrap();
    let tb: BrTable = match rb.read_operator().unwrap() {
        Operator::BrTable { targets } => targets,
        other => panic!("expected a branch table, found {:?}", other),
    };
    assert_eq!(ta, tb);
    let c: [u8; 6] = [0x0e, 0x03, 0x00, 0x01, 0x02, 0x04];
    let tc: BrTable = match read_one(&c) {
        Operator::BrTable { targets } => targets,
        other => panic!("expected a branch table, found {:?}", other),
    };
    assert!(ta != tc);
}
