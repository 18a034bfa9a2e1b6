use wasm_debugger::header::{parse_wasm_header, HeaderError};
use wasm_debugger::wasm_sections::import_section::{
    parse_import_section, read_name, read_varuint32, DecodeError, HeapType, ImportDescriptor,
    Limits, RefType, TableType,
};
use wasm_debugger::wasm_sections::MemoryType;

#[test]
fn header_reports_version() {
    let data = [0x00, 0x61, 0x73, 0x6d, 0x01, 0x00, 0x00, 0x00];
    assert_eq!(parse_wasm_header(&data), Ok(1));
    let data = [0x00, 0x61, 0x73, 0x6d, 0x0d, 0x00, 0x01, 0x00, 0xff];
    assert_eq!(parse_wasm_header(&data), Ok(0x0001000d));
}

#[test]
fn header_too_short() {
    assert_eq!(parse_wasm_header(&[0x00, 0x61, 0x73, 0x6d, 0x01]), Err(HeaderError::TooShort));
    assert_eq!(parse_wasm_header(&[]), Err(HeaderError::TooShort));
}

#[test]
fn header_bad_magic() {
    let data = [0x7f, 0x45, 0x4c, 0x46, 0x01, 0x00, 0x00, 0x00];
    assert_eq!(parse_wasm_header(&data), Err(HeaderError::BadMagic));
}

#[test]
fn leb128_values() {
    assert_eq!(read_varuint32(&[0x00], 0), Ok((0, 1)));
    assert_eq!(read_varuint32(&[0x7f], 0), Ok((127, 1)));
    assert_eq!(read_varuint32(&[0x80, 0x01], 0), Ok((128, 2)));
    assert_eq!(read_varuint32(&[0xe5, 0x8e, 0x26], 0), Ok((624485, 3)));
    assert_eq!(read_varuint32(&[0xff, 0xff, 0xff, 0xff, 0x0f], 0), Ok((u32::MAX, 5)));
    assert_eq!(read_varuint32(&[0x01, 0x80, 0x01], 1), Ok((128, 3)));
}

#[test]
fn leb128_errors() {
    assert_eq!(read_varuint32(&[0x80, 0x80], 0), Err(DecodeError::UnexpectedEnd));
    assert_eq!(read_varuint32(&[], 0), Err(DecodeError::UnexpectedEnd));
    assert_eq!(read_varuint32(&[0xff, 0xff, 0xff, 0xff, 0x10], 0), Err(DecodeError::MalformedLeb128));
    assert_eq!(read_varuint32(&[0x80, 0x80, 0x80, 0x80, 0x80, 0x00], 0), Err(DecodeError::MalformedLeb128));
}

#[test]
fn names() {
    let bytes = [0x03, b'e', b'n', b'v', 0x99];
    let (name, next) = read_name(&bytes, 0).unwrap();
    assert_eq!(name, "env");
    assert_eq!(next, 4);
    let utf8 = [0x02, 0xc3, 0xa9];
    assert_eq!(read_name(&utf8, 0).unwrap().0, "é");
    assert_eq!(read_name(&[0x02, 0xc3, 0x28], 0), Err(DecodeError::InvalidUtf8));
    assert_eq!(read_name(&[0x05, b'a'], 0), Err(DecodeError::UnexpectedEnd));
}

fn import_bytes() -> Vec<u8> {
    let mut b = vec![0x04];
    // env.f : function of type 2
    b.extend_from_slice(&[0x03, b'e', b'n', b'v', 0x01, b'f', 0x00, 0x02]);
    // env.t : table of funcref, min 1, max 10
    b.extend_from_slice(&[0x03, b'e', b'n', b'v', 0x01, b't', 0x01, 0x70, 0x01, 0x01, 0x0a]);
    // env.m : memory, min 17
    b.extend_from_slice(&[0x03, b'e', b'n', b'v', 0x01, b'm', 0x02, 0x00, 0x11]);
    // env.g : mutable i64 global
    b.extend_from_slice(&[0x03, b'e', b'n', b'v', 0x01, b'g', 0x03, 0x7e, 0x01]);
    b
}

#[test]
fn import_section_entries() {
    let imports = parse_import_section(&import_bytes()).unwrap();
    assert_eq!(imports.len(), 4);
    assert!(imports.iter().all(|i| i.module_name == "env"));
    assert_eq!(imports[0].import_name, "f");
    assert!(matches!(imports[0].descriptor, ImportDescriptor::Function(2)));
    match &imports[1].descriptor {
        ImportDescriptor::Table(t) => assert_eq!(
            *t,
            TableType {
                limits: Limits { min: 1, max: Some(10) },
                elem_type: RefType::HeapTypeRef(HeapType::Func)
            }
        ),
        _ => panic!("expected a table"),
    }
    match &imports[2].descriptor {
        ImportDescriptor::Memory(m) => assert_eq!(*m, MemoryType { initial: 17, maximum: None }),
        _ => panic!("expected a memory"),
    }
    match &imports[3].descriptor {
        ImportDescriptor::Global(g) => {
            assert_eq!(g.value_type, "i64");
            assert!(g.mutable);
        }
        _ => panic!("expected a global"),
    }
}

#[test]
fn import_section_ignores_trailing_bytes() {
    let mut bytes = import_bytes();
    bytes.extend_from_slice(&[0xde, 0xad]);
    assert_eq!(parse_import_section(&bytes).unwrap().len(), 4);
}

#[test]
fn import_section_empty() {
    assert_eq!(parse_import_section(&[0x00]).unwrap().len(), 0);
}

#[test]
fn import_section_errors() {
    let bad_kind = [0x01, 0x01, b'a', 0x01, b'b', 0x04, 0x00];
    assert_eq!(parse_import_section(&bad_kind).err(), Some("Unknown import descriptor type"));
    let truncated = [0x02, 0x01, b'a', 0x01, b'b', 0x00, 0x00];
    assert_eq!(parse_import_section(&truncated).err(), Some("unexpected end of import section"));
    let bad_ref = [0x01, 0x01, b'a', 0x01, b'b', 0x01, 0x7f, 0x00, 0x01];
    assert_eq!(parse_import_section(&bad_ref).err(), Some("unknown reference type"));
    let bad_limits = [0x01, 0x01, b'a', 0x01, b'b', 0x02, 0x05, 0x01];
    assert_eq!(parse_import_section(&bad_limits).err(), Some("unknown limits flag"));
    let bad_valtype = [0x01, 0x01, b'a', 0x01, b'b', 0x03, 0x40, 0x00];
    assert_eq!(parse_import_section(&bad_valtype).err(), Some("unknown value type"));
    let bad_mut = [0x01, 0x01, b'a', 0x01, b'b', 0x03, 0x7f, 0x02];
    assert_eq!(parse_import_section(&bad_mut).err(), Some("unknown global mutability"));
    let bad_name = [0x01, 0x01, 0xff, 0x01, b'b', 0x00, 0x00];
    assert_eq!(parse_import_section(&bad_name).err(), Some("name is not valid UTF-8"));
    let bad_count = [0x80];
    assert_eq!(parse_import_section(&bad_count).err(), Some("unexpected end of import section"));
    let long_leb = [0x01, 0x01, b'a', 0x01, b'b', 0x00, 0xff, 0xff, 0xff, 0xff, 0x7f];
    assert_eq!(parse_import_section(&long_leb).err(), Some("malformed LEB128 integer"));
}
