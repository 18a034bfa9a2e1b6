use wasm_debugger::custom_sections::DwarfSections;
use wasm_debugger::debug_sections::debug_loc::{parse_debug_loc, LocationEntry};
use wasm_debugger::debug_sections::debug_ranges::{parse_debug_ranges, RangeEntry};
use wasm_debugger::error::DebuggerError;
use wasm_debugger::source_maps::{
    source_map_entry_for, FunctionBytecodeRange, OperatorKind, SourceMap, SourceMapEntry,
};
use wasm_debugger::wasm_parser::{find_dwarf, parse_wasm2};
use wasm_debugger::wasm_sections::global_section::{
    finalize_dwarf, handle_initializer_expression, process_global_type, DwarfUnit, GlobalType,
    Mutability, ValueType,
};

#[test]
fn operators_to_entries() {
    assert!(matches!(
        source_map_entry_for(&OperatorKind::Call { function_index: 3 }),
        Some(SourceMapEntry::FunctionCall { function_index: 3, source_line: 0 })
    ));
    assert!(matches!(
        source_map_entry_for(&OperatorKind::LocalGet { local_index: 1 }),
        Some(SourceMapEntry::VariableAccess { local_index: 1, source_line: 0 })
    ));
    for op in [OperatorKind::I32Add, OperatorKind::I64Add] {
        assert!(matches!(source_map_entry_for(&op), Some(SourceMapEntry::ArithmeticOperation { operation: "Add", source_line: 0 })));
    }
    for op in [OperatorKind::F32Add, OperatorKind::F64Add] {
        assert!(matches!(source_map_entry_for(&op), Some(SourceMapEntry::ArithmeticOperation { operation: "Float Add", .. })));
    }
    assert!(matches!(source_map_entry_for(&OperatorKind::If), Some(SourceMapEntry::ControlFlow { operation: "If", .. })));
    assert!(matches!(source_map_entry_for(&OperatorKind::Loop), Some(SourceMapEntry::ControlFlow { operation: "Loop", .. })));
    assert!(matches!(source_map_entry_for(&OperatorKind::End), Some(SourceMapEntry::ControlFlow { operation: "End", .. })));
    assert!(matches!(source_map_entry_for(&OperatorKind::MemorySize), Some(SourceMapEntry::MemoryOperation { operation: "Memory Size", .. })));
    assert!(matches!(source_map_entry_for(&OperatorKind::MemoryGrow), Some(SourceMapEntry::MemoryOperation { operation: "Memory Grow", .. })));
    assert!(matches!(source_map_entry_for(&OperatorKind::I32WrapI64), Some(SourceMapEntry::ConversionOperation { operation: "I32 Wrap I64", .. })));
    for op in [OperatorKind::I64ExtendI32S, OperatorKind::I64ExtendI32U] {
        assert!(matches!(source_map_entry_for(&op), Some(SourceMapEntry::ConversionOperation { operation: "I64 Extend I32", .. })));
    }
    for op in [OperatorKind::I32Eq, OperatorKind::I64Eq] {
        assert!(matches!(source_map_entry_for(&op), Some(SourceMapEntry::ComparisonOperation { operation: "Equal", .. })));
    }
    for op in [OperatorKind::I32Ne, OperatorKind::I64Ne] {
        assert!(matches!(source_map_entry_for(&op), Some(SourceMapEntry::ComparisonOperation { operation: "Not Equal", .. })));
    }
    for op in [OperatorKind::Br { relative_depth: 0 }, OperatorKind::BrIf { relative_depth: 2 }, OperatorKind::Other] {
        assert!(source_map_entry_for(&op).is_none());
    }
}

#[test]
fn source_map_records() {
    let mut map = SourceMap::new();
    map.record_operator(0, &OperatorKind::Br { relative_depth: 1 });
    map.record_operator(1, &OperatorKind::Call { function_index: 2 });
    map.add_entry(5, SourceMapEntry::Constant { value: "Const(1)".to_string(), source_line: 3 });
    map.add_function_name(0, "main".to_string());
    map.add_function_range(0, FunctionBytecodeRange { start: 10, end: 20 });
}

#[test]
fn globals_make_entries() {
    let mut unit = DwarfUnit::new();
    let g = GlobalType {
        name: "counter".to_string(),
        value_type: ValueType::I32,
        mutability: Mutability::Var,
        source_file: "main.c".to_string(),
        line: 12,
    };
    process_global_type(g, &mut unit);
    handle_initializer_expression(vec![0x41, 0x00, 0x0b], &mut unit);
    finalize_dwarf(unit);
}

#[test]
fn debug_ranges_entries() {
    let mut data = vec![0x10, 0, 0, 0, 0x20, 0, 0, 0];
    data.extend_from_slice(&[0xff, 0xff, 0xff, 0xff, 0x00, 0x10, 0, 0]);
    data.extend_from_slice(&[0; 8]);
    data.extend_from_slice(&[0x30, 0, 0, 0, 0x40, 0, 0, 0]);
    let ranges = parse_debug_ranges(&data).ok().unwrap();
    assert_eq!(ranges, vec![
        RangeEntry::AddressOrOffsetPair { begin: 0x10, end: 0x20 },
        RangeEntry::BaseAddress { addr: 0x1000 },
    ]);
    assert_eq!(parse_debug_ranges(&[]).ok().unwrap(), vec![]);
    assert!(matches!(parse_debug_ranges(&[1, 0, 0]), Err(DebuggerError::Gimli(_))));
    let unterminated = [0x01, 0, 0, 0, 0x02, 0, 0, 0];
    assert_eq!(parse_debug_ranges(&unterminated).ok().unwrap(), vec![RangeEntry::AddressOrOffsetPair { begin: 1, end: 2 }]);
}

#[test]
fn debug_loc_entries() {
    let mut data = vec![0x10, 0, 0, 0, 0x20, 0, 0, 0, 0x02, 0x00, 0x91, 0x7c];
    data.extend_from_slice(&[0xff, 0xff, 0xff, 0xff, 0x00, 0x10, 0, 0]);
    data.extend_from_slice(&[0; 8]);
    let d = DwarfSections::empty();
    let locs = parse_debug_loc(&data, &d).ok().unwrap();
    assert_eq!(locs.len(), 2);
    match &locs[0] {
        LocationEntry::AddressOrOffsetPair { begin, end, data } => {
            assert_eq!((*begin, *end), (0x10, 0x20));
            assert_eq!(data, &vec![0x91, 0x7c]);
        }
        _ => panic!("expected a range"),
    }
    assert!(matches!(locs[1], LocationEntry::BaseAddress { addr: 0x1000 }));
    let short = [0x10, 0, 0, 0, 0x20, 0, 0, 0, 0x05, 0x00, 0x91];
    assert!(matches!(parse_debug_loc(&short, &d), Err(DebuggerError::Gimli(_))));
}

fn section(id: u8, contents: &[u8]) -> Vec<u8> {
    let mut s = vec![id, contents.len() as u8];
    s.extend_from_slice(contents);
    s
}

fn custom(name: &str, data: &[u8]) -> Vec<u8> {
    let mut c = vec![name.len() as u8];
    c.extend_from_slice(name.as_bytes());
    c.extend_from_slice(data);
    section(0, &c)
}

fn module(sections: &[Vec<u8>]) -> Vec<u8> {
    let mut m = vec![0x00, 0x61, 0x73, 0x6d, 0x01, 0x00, 0x00, 0x00];
    for s in sections {
        m.extend_from_slice(s);
    }
    m
}

#[test]
fn dwarf_from_last_custom_section() {
    assert!(find_dwarf(&module(&[])).ok().unwrap().is_none());
    let m = module(&[custom(".debug_str", b"main\0"), section(1, &[0x00])]);
    let d = find_dwarf(&m).ok().unwrap().unwrap();
    assert_eq!(d.debug_str, b"main\0".to_vec());
    let m = module(&[custom(".debug_str", b"main\0"), custom(".debug_abbrev", &[1, 2])]);
    let d = find_dwarf(&m).ok().unwrap().unwrap();
    assert!(d.debug_str.is_empty());
    assert_eq!(d.debug_abbrev, vec![1, 2]);
    assert!(matches!(find_dwarf(&[0x00, 0x61, 0x73]), Err(DebuggerError::WasmParse(_))));
}

#[test]
fn modules_without_custom_sections_are_not_walked_again() {
    let types = section(1, &[0x01, 0x60, 0x00, 0x00]);
    let funcs = section(3, &[0x01, 0x00]);
    let code = section(10, &[0x01, 0x02, 0x00, 0x0b]);
    assert!(parse_wasm2(&module(&[types, funcs, code])).is_ok());
}

#[test]
fn code_bodies_end_in_an_error() {
    let types = section(1, &[0x01, 0x60, 0x00, 0x00]);
    let funcs = section(3, &[0x01, 0x00]);
    let code = section(10, &[0x01, 0x04, 0x00, 0x41, 0x00, 0x0b]);
    let m = module(&[types, funcs, code, custom("name", &[])]);
    assert!(parse_wasm2(&m).is_err());
    let m = module(&[custom("producers", &[]), section(1, &[0x01, 0x60, 0x00, 0x00])]);
    assert!(parse_wasm2(&m).is_ok());
}

#[test]
fn empty_debug_info_has_no_units() {
    let m = module(&[custom(".debug_info", &[])]);
    assert!(parse_wasm2(&m).is_ok());
    let m = module(&[custom(".debug_info", &[0x05, 0x00])]);
    assert!(matches!(parse_wasm2(&m), Err(DebuggerError::Gimli(_))));
}

#[test]
fn malformed_sections_fail() {
    let m = module(&[custom("x", &[]), section(1, &[0x02, 0x60, 0x00, 0x00])]);
    assert!(matches!(parse_wasm2(&m), Err(DebuggerError::WasmParse(_))));
    let m = module(&[custom("x", &[]), section(3, &[0x01, 0x00, 0x00])]);
    assert!(matches!(parse_wasm2(&m), Err(DebuggerError::WasmParse(_))));
}

#[test]
fn empty_code_section_with_dwarf_reads() {
    let funcs = section(3, &[0x00]);
    let code = section(10, &[0x00]);
    let m = module(&[custom(".debug_str", b"x\0"), funcs, code]);
    assert!(parse_wasm2(&m).is_ok());
}

#[test]
fn section_counts_must_match_entries() {
    let m = module(&[custom("x", &[]), section(2, &[0x01])]);
    assert!(matches!(parse_wasm2(&m), Err(DebuggerError::WasmParse(_))));
    let m = module(&[custom("x", &[]), section(7, &[0x01])]);
    assert!(matches!(parse_wasm2(&m), Err(DebuggerError::WasmParse(_))));
    let m = module(&[custom("x", &[]), section(1, &[0x00, 0x60])]);
    assert!(matches!(parse_wasm2(&m), Err(DebuggerError::WasmParse(_))));
    let m = module(&[custom("x", &[]), section(2, &[0x00]), section(7, &[0x00])]);
    assert!(parse_wasm2(&m).is_ok());
}

#[test]
fn one_unknown_custom_section_reads() {
    let m = [0x00u8, 0x61, 0x73, 0x6d, 0x01, 0x00, 0x00, 0x00, 0x00, 0x02, 0x01, 0x78];
    assert!(parse_wasm2(&m).is_ok());
}

#[test]
fn code_section_must_end_after_its_count() {
    let m = module(&[custom("x", &[]), section(10, &[0x00, 0x00])]);
    assert!(matches!(parse_wasm2(&m), Err(DebuggerError::WasmParse(_))));
    let m = module(&[custom("x", &[]), section(3, &[0x00, 0x05])]);
    assert!(matches!(parse_wasm2(&m), Err(DebuggerError::WasmParse(_))));
}
