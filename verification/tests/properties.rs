//! The behavioural properties of the decoder: exact float bit patterns,
//! poison-on-error iteration, size-limit enforcement, trailing-data
//! rejection, branch-table laziness, and the minimal end-to-end decode.

use wasm_operators::branch::BrTable;
use wasm_operators::error::ErrorKind;
use wasm_operators::immediates::{Ieee32, Ieee64, V128};
use wasm_operators::operator::Operator;
use wasm_operators::operators_reader::OperatorsReader;
use wasm_operators::reader::BinaryReader;
use wasm_operators::tables::{Catch, ResumeTable, TryTable};

fn read_one(data: &[u8]) -> Operator<'_> {
    let mut reader = BinaryReader::new(data, 0);
    reader.read_operator().expect("operator")
}

#[test]
fn float_bit_patterns_round_trip_exactly() {
    let patterns32: [u32; 6] =
        [0, 1, 0x3f80_0000, 0x7fc0_0000, 0xffc0_0000, 0xffff_ffff];
    for bits in patterns32 {
        let data: [u8; 5] = [
            0x43,
            (bits & 0xff) as u8,
            ((bits >> 8) & 0xff) as u8,
            ((bits >> 16) & 0xff) as u8,
            ((bits >> 24) & 0xff) as u8,
        ];
        assert_eq!(read_one(&data), Operator::F32Const { value: Ieee32::new(bits) });
    }
    // The two NaN encodings differ only in the sign bit and stay distinct.
    assert_ne!(Ieee32::new(0x7fc0_0000).bits(), Ieee32::new(0xffc0_0000).bits());
    let patterns64: [u64; 4] =
        [0, 0x7ff8_0000_0000_0000, 0xfff8_0000_0000_0001, u64::MAX];
    for bits in patterns64 {
        let mut data: [u8; 9] = [0x44, 0, 0, 0, 0, 0, 0, 0, 0];
        let le = bits.to_le_bytes();
        data[1..9].copy_from_slice(&le);
        assert_eq!(read_one(&data), Operator::F64Const { value: Ieee64::new(bits) });
    }
}

#[test]
fn v128_bytes_and_integer_views_agree() {
    let mut data: [u8; 18] = [0; 18];
    data[0] = 0xfd;
    data[1] = 0x0c;
    for i in 0..16 {
        data[2 + i] = (i as u8) + 1;
    }
    let op = read_one(&data);
    let v: V128 = match op {
        Operator::V128Const { value } => value,
        other => panic!("expected a vector constant, found {:?}", other),
    };
    let mut expect: [u8; 16] = [0; 16];
    expect.copy_from_slice(&data[2..18]);
    assert_eq!(v.bytes(), &expect);
    assert_eq!(v.i128(), i128::from_le_bytes(expect));
    let high: V128 = V128::new([0xff; 16]);
    assert_eq!(high.i128(), -1i128);
}

#[test]
fn iterators_poison_permanently_on_error() {
    // One good instruction, one bad byte, then bytes that would decode fine.
    let data: [u8; 4] = [0x01, 0xf0, 0x01, 0x0b];
    let mut iter = OperatorsReader::new(BinaryReader::new(&data, 0)).into_iter();
    assert_eq!(iter.next().unwrap().unwrap(), Operator::Nop);
    assert!(iter.next().unwrap().is_err());
    assert!(iter.next().is_none());
    assert!(iter.next().is_none());
    assert!(iter.next().is_none());
}

#[test]
fn offset_iterators_poison_permanently_on_error() {
    let data: [u8; 4] = [0x01, 0xf0, 0x01, 0x0b];
    let mut iter = OperatorsReader::new(BinaryReader::new(&data, 0)).into_iter_with_offsets();
    assert_eq!(iter.next().unwrap().unwrap(), (Operator::Nop, 0));
    assert!(iter.next().unwrap().is_err());
    assert!(iter.next().is_none());
    assert!(iter.next().is_none());
}

#[test]
fn try_table_count_over_the_bound_is_a_size_error() {
    // Empty block type, then a declared count of 10001.
    let data: [u8; 3] = [0x40, 0x91, 0x4e];
    let mut reader = BinaryReader::new(&data, 0);
    let err = TryTable::from_reader(&mut reader).unwrap_err();
    assert_eq!(err.kind, ErrorKind::SizeLimitExceeded { context: "catches" });
}

#[test]
fn resume_table_count_over_the_bound_is_a_size_error() {
    let data: [u8; 2] = [0x91, 0x4e];
    let mut reader = BinaryReader::new(&data, 0);
    let err = ResumeTable::from_reader(&mut reader).unwrap_err();
    assert_eq!(err.kind, ErrorKind::SizeLimitExceeded { context: "resume table" });
}

#[test]
fn ensure_end_rejects_trailing_bytes() {
    let data: [u8; 3] = [0x01, 0x0b, 0xff];
    let mut op_reader = OperatorsReader::new(BinaryReader::new(&data, 0));
    assert_eq!(op_reader.read().unwrap(), Operator::Nop);
    assert_eq!(op_reader.read().unwrap(), Operator::End);
    let err = op_reader.ensure_end().unwrap_err();
    assert_eq!(err.kind, ErrorKind::TrailingData);
    assert_eq!(err.offset, 2);
}

#[test]
fn ensure_end_cites_absolute_offsets() {
    let data: [u8; 3] = [0x01, 0x0b, 0xff];
    let mut op_reader = OperatorsReader::new(BinaryReader::new(&data, 20));
    op_reader.read().unwrap();
    op_reader.read().unwrap();
    assert_eq!(op_reader.ensure_end().unwrap_err().offset, 22);
    assert_eq!(op_reader.original_position(), 22);
}

#[test]
fn br_table_header_is_available_without_decoding_labels() {
    let data: [u8; 6] = [0x0e, 0x03, 0x05, 0x06, 0x07, 0x09];
    let targets: BrTable = match read_one(&data) {
        Operator::BrTable { targets } => targets,
        other => panic!("expected a branch table, found {:?}", other),
    };
    assert_eq!(targets.len(), 3);
    assert_eq!(targets.default(), 9);
    assert_eq!(targets.targets().unwrap(), vec![5, 6, 7]);
}

#[test]
fn br_table_labels_fail_only_when_asked_for() {
    // A label that overflows the 32-bit range: the skip at construction
    // counts its bytes, the explicit decode rejects it.
    let data: [u8; 8] = [0x0e, 0x01, 0x80, 0x80, 0x80, 0x80, 0x10, 0x02];
    let mut reader = BinaryReader::new(&data, 0);
    let err = reader.read_operator().unwrap_err();
    assert_eq!(err.kind, ErrorKind::IntegerTooLarge);
}

#[test]
fn catch_with_unknown_leading_byte_fails_naming_catch() {
    let data: [u8; 3] = [0x07, 0x00, 0x00];
    let mut reader = BinaryReader::new(&data, 0);
    let err = Catch::from_reader(&mut reader).unwrap_err();
    assert_eq!(err.kind, ErrorKind::InvalidLeadingByte { byte: 0x07, context: "catch" });
    assert_eq!(err.offset, 0);
}

#[test]
fn catch_error_offset_tracks_the_leading_byte() {
    let data: [u8; 8] = [0x40, 0x02, 0x00, 0x01, 0x02, 0x07, 0x00, 0x00];
    let mut reader = BinaryReader::new(&data, 0);
    let err = TryTable::from_reader(&mut reader).unwrap_err();
    assert_eq!(err.kind, ErrorKind::InvalidLeadingByte { byte: 0x07, context: "catch" });
    assert_eq!(err.offset, 5);
}

#[test]
fn nop_end_body_decodes_end_to_end() {
    let data: [u8; 2] = [0x01, 0x0b];
    let op_reader = OperatorsReader::new(BinaryReader::new(&data, 0));
    let mut iter = op_reader.clone().into_iter();
    let mut ops: Vec<Operator> = Vec::new();
    while let Some(item) = iter.next() {
        ops.push(item.expect("operator"));
    }
    assert_eq!(ops, vec![Operator::Nop, Operator::End]);
    let mut op_reader = op_reader;
    op_reader.read().unwrap();
    op_reader.read().unwrap();
    assert!(op_reader.eof());
    assert!(op_reader.ensure_end().is_ok());
}

#[test]
fn error_messages_describe_the_kind() {
    let data: [u8; 1] = [0xf0];
    let mut reader = BinaryReader::new(&data, 0);
    let err = reader.read_operator().unwrap_err();
    assert_eq!(err.message(), "invalid leading byte");
}
