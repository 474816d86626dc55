//! Visitor/enum equivalence: decoding through `read()` plus the default
//! dispatcher produces the same sequence of visited calls as driving the
//! reader's own `visit_operator`, and the borrowing and boxing forwarders
//! change nothing.

use wasm_operators::branch::BrTable;
use wasm_operators::immediates::{BlockType, Ieee32, Ieee64, MemArg, Ordering, V128};
use wasm_operators::operators_reader::OperatorsReader;
use wasm_operators::reader::BinaryReader;
use wasm_operators::tables::{ResumeTable, TryTable};
use wasm_operators::visitor::VisitOperator;

#[derive(Default)]
struct Trace {
    calls: Vec<String>,
}

impl<'a> VisitOperator<'a> for Trace {
    type Output = ();

    fn visit_unreachable(&mut self) {
        self.calls.push("unreachable".to_string());
    }
    fn visit_nop(&mut self) {
        self.calls.push("nop".to_string());
    }
    fn visit_block(&mut self, blockty: BlockType) {
        self.calls.push(format!("block {:?}", blockty));
    }
    fn visit_loop(&mut self, blockty: BlockType) {
        self.calls.push(format!("loop {:?}", blockty));
    }
    fn visit_if(&mut self, blockty: BlockType) {
        self.calls.push(format!("if {:?}", blockty));
    }
    fn visit_else(&mut self) {
        self.calls.push("else".to_string());
    }
    fn visit_end(&mut self) {
        self.calls.push("end".to_string());
    }
    fn visit_br(&mut self, relative_depth: u32) {
        self.calls.push(format!("br {}", relative_depth));
    }
    fn visit_br_if(&mut self, relative_depth: u32) {
        self.calls.push(format!("br_if {}", relative_depth));
    }
    fn visit_br_table(&mut self, targets: BrTable<'a>) {
        self.calls.push(format!(
            "br_table {} {} {:?}",
            targets.len(),
            targets.default(),
            targets.targets().unwrap()
        ));
    }
    fn visit_return(&mut self) {
        self.calls.push("return".to_string());
    }
    fn visit_call(&mut self, function_index: u32) {
        self.calls.push(format!("call {}", function_index));
    }
    fn visit_call_indirect(&mut self, type_index: u32, table_index: u32) {
        self.calls.push(format!("call_indirect {} {}", type_index, table_index));
    }
    fn visit_drop(&mut self) {
        self.calls.push("drop".to_string());
    }
    fn visit_select(&mut self) {
        self.calls.push("select".to_string());
    }
    fn visit_try_table(&mut self, try_table: TryTable) {
        self.calls.push(format!("try_table {:?}", try_table));
    }
    fn visit_local_get(&mut self, local_index: u32) {
        self.calls.push(format!("local_get {}", local_index));
    }
    fn visit_local_set(&mut self, local_index: u32) {
        self.calls.push(format!("local_set {}", local_index));
    }
    fn visit_local_tee(&mut self, local_index: u32) {
        self.calls.push(format!("local_tee {}", local_index));
    }
    fn visit_global_get(&mut self, global_index: u32) {
        self.calls.push(format!("global_get {}", global_index));
    }
    fn visit_global_set(&mut self, global_index: u32) {
        self.calls.push(format!("global_set {}", global_index));
    }
    fn visit_i32_load(&mut self, memarg: MemArg) {
        self.calls.push(format!("i32.load {:?}", memarg));
    }
    fn visit_i64_load(&mut self, memarg: MemArg) {
        self.calls.push(format!("i64.load {:?}", memarg));
    }
    fn visit_i32_store(&mut self, memarg: MemArg) {
        self.calls.push(format!("i32.store {:?}", memarg));
    }
    fn visit_i64_store(&mut self, memarg: MemArg) {
        self.calls.push(format!("i64.store {:?}", memarg));
    }
    fn visit_memory_size(&mut self, mem: u32) {
        self.calls.push(format!("memory.size {}", mem));
    }
    fn visit_memory_grow(&mut self, mem: u32) {
        self.calls.push(format!("memory.grow {}", mem));
    }
    fn visit_i32_const(&mut self, value: i32) {
        self.calls.push(format!("i32.const {}", value));
    }
    fn visit_i64_const(&mut self, value: i64) {
        self.calls.push(format!("i64.const {}", value));
    }
    fn visit_f32_const(&mut self, value: Ieee32) {
        self.calls.push(format!("f32.const {:#x}", value.bits()));
    }
    fn visit_f64_const(&mut self, value: Ieee64) {
        self.calls.push(format!("f64.const {:#x}", value.bits()));
    }
    fn visit_i32_eqz(&mut self) {
        self.calls.push("i32.eqz".to_string());
    }
    fn visit_i32_add(&mut self) {
        self.calls.push("i32.add".to_string());
    }
    fn visit_i32_sub(&mut self) {
        self.calls.push("i32.sub".to_string());
    }
    fn visit_i64_add(&mut self) {
        self.calls.push("i64.add".to_string());
    }
    fn visit_resume(&mut self, cont_type_index: u32, resume_table: ResumeTable) {
        self.calls.push(format!("resume {} {:?}", cont_type_index, resume_table));
    }
    fn visit_resume_throw(
        &mut self,
        cont_type_index: u32,
        tag_index: u32,
        resume_table: ResumeTable,
    ) {
        self.calls.push(format!(
            "resume_throw {} {} {:?}",
            cont_type_index, tag_index, resume_table
        ));
    }
    fn visit_data_drop(&mut self, data_index: u32) {
        self.calls.push(format!("data.drop {}", data_index));
    }
    fn visit_memory_copy(&mut self, dst_mem: u32, src_mem: u32) {
        self.calls.push(format!("memory.copy {} {}", dst_mem, src_mem));
    }
    fn visit_memory_fill(&mut self, mem: u32) {
        self.calls.push(format!("memory.fill {}", mem));
    }
    fn visit_v128_load(&mut self, memarg: MemArg) {
        self.calls.push(format!("v128.load {:?}", memarg));
    }
    fn visit_v128_const(&mut self, value: V128) {
        self.calls.push(format!("v128.const {:?}", value.bytes()));
    }
    fn visit_i32_atomic_load(&mut self, memarg: MemArg) {
        self.calls.push(format!("i32.atomic.load {:?}", memarg));
    }
    fn visit_global_atomic_get(&mut self, ordering: Ordering, global_index: u32) {
        self.calls.push(format!("global.atomic.get {:?} {}", ordering, global_index));
    }
    fn visit_global_atomic_set(&mut self, ordering: Ordering, global_index: u32) {
        self.calls.push(format!("global.atomic.set {:?} {}", ordering, global_index));
    }
}

/// A function body exercising every payload shape: control flow, indices,
/// memory accesses, constants of all four widths, a branch table, an
/// exception table, a resumption table, and the extended opcode spaces.
fn varied_body() -> Vec<u8> {
    let mut data: Vec<u8> = Vec::new();
    data.extend_from_slice(&[0x01]); // nop
    data.extend_from_slice(&[0x02, 0x40]); // block (empty)
    data.extend_from_slice(&[0x41, 0x2a]); // i32.const 42
    data.extend_from_slice(&[0x42, 0x7f]); // i64.const -1
    data.extend_from_slice(&[0x43, 0x00, 0x00, 0xc0, 0x7f]); // f32.const nan
    data.extend_from_slice(&[0x44, 0, 0, 0, 0, 0, 0, 0xf8, 0x7f]); // f64.const nan
    data.extend_from_slice(&[0x28, 0x02, 0x04]); // i32.load
    data.extend_from_slice(&[0x0e, 0x02, 0x00, 0x01, 0x02]); // br_table
    data.extend_from_slice(&[0x1f, 0x40, 0x01, 0x00, 0x01, 0x02]); // try_table
    data.extend_from_slice(&[0xe3, 0x04, 0x01, 0x01, 0x03]); // resume
    data.extend_from_slice(&[0xfc, 0x0a, 0x00, 0x00]); // memory.copy
    data.extend_from_slice(&[0xfd, 0x00, 0x04, 0x00]); // v128.load
    data.extend_from_slice(&[0xfe, 0x4f, 0x00, 0x05]); // global.atomic.get
    data.extend_from_slice(&[0x0b]); // end
    data
}

#[test]
fn default_dispatch_matches_direct_visiting() {
    let data = varied_body();

    let mut via_read = Trace::default();
    let mut reader = OperatorsReader::new(BinaryReader::new(&data, 0));
    while !reader.eof() {
        let op = reader.read().expect("operator");
        via_read.visit_operator(&op);
    }

    let mut via_visit = Trace::default();
    let mut reader = OperatorsReader::new(BinaryReader::new(&data, 0));
    while !reader.eof() {
        reader.visit_operator(&mut via_visit).expect("operator");
    }

    assert!(!via_read.calls.is_empty());
    assert_eq!(via_read.calls, via_visit.calls);
}

#[test]
fn borrowing_and_boxing_forwarders_change_nothing() {
    let data = varied_body();

    let mut direct = Trace::default();
    let mut reader = OperatorsReader::new(BinaryReader::new(&data, 0));
    while !reader.eof() {
        reader.visit_operator(&mut direct).expect("operator");
    }

    let mut borrowed = Trace::default();
    let mut reader = OperatorsReader::new(BinaryReader::new(&data, 0));
    while !reader.eof() {
        let mut forwarder = &mut borrowed;
        reader.visit_operator(&mut forwarder).expect("operator");
    }

    let mut boxed: Box<Trace> = Box::new(Trace::default());
    let mut reader = OperatorsReader::new(BinaryReader::new(&data, 0));
    while !reader.eof() {
        reader.visit_operator(&mut boxed).expect("operator");
    }

    assert_eq!(direct.calls, borrowed.calls);
    assert_eq!(direct.calls, boxed.calls);
}
