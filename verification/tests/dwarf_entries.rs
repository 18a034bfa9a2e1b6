use wasm_debugger::custom_sections::{parse_custom_section, DwarfSections};
use wasm_debugger::debug_data::DebugInfoStorage;
use wasm_debugger::die_types::models::die::{
    AttrValue, Attribute, DebugInfoEntry, Unit, DW_AT_ALIGNMENT, DW_AT_BYTE_SIZE,
    DW_AT_CONST_VALUE, DW_AT_DATA_MEMBER_LOCATION, DW_AT_EXTERNAL, DW_AT_HIGH_PC, DW_AT_LOCATION,
    DW_AT_LOW_PC, DW_AT_NAME, DW_AT_TYPE, DW_AT_VISIBILITY, DW_TAG_CLASS_TYPE,
    DW_TAG_ENUMERATION_TYPE, DW_TAG_ENUMERATOR, DW_TAG_MEMBER, DW_TAG_NAMESPACE,
    DW_TAG_STRUCTURE_TYPE, DW_TAG_SUBPROGRAM, DW_TAG_TYPEDEF, DW_TAG_VARIABLE,
};
use wasm_debugger::die_types::models::type_info::Symbol;
use wasm_debugger::die_types::parse_types::parse_class::{
    get_die_name, process_class_or_struct, process_member_variable,
};
use wasm_debugger::die_types::parse_types::parse_constant::parse_constant;
use wasm_debugger::die_types::parse_types::parse_enum::parse_enum;
use wasm_debugger::die_types::parse_types::parse_namespace::parse_namespace;
use wasm_debugger::die_types::parse_types::parse_typedef::{parse_typedef, resolve_type};
use wasm_debugger::error::DebuggerError;
use wasm_debugger::wasm_parser::{
    is_dwarf_section, parse_abbrev_info_section, parse_entry, parse_function, parse_variable,
};

fn attr(name: u16, value: AttrValue) -> Attribute {
    Attribute { name, value }
}

fn entry(offset: usize, tag: u16, attrs: Vec<Attribute>, children: Vec<DebugInfoEntry>) -> DebugInfoEntry {
    DebugInfoEntry { offset, tag, attrs, children }
}

/// `.debug_str` with "Point" at 0, "x" at 6, "Red" at 8, "Green" at 12, "ns" at 18.
fn strings() -> DwarfSections {
    let mut d = DwarfSections::empty();
    d.debug_str = b"Point\0x\0Red\0Green\0ns\0\xff\xfe\0".to_vec();
    d
}

#[test]
fn dwarf_gimli_constants_agree() {
    assert_eq!(DW_TAG_SUBPROGRAM, gimli::DW_TAG_subprogram.0);
    assert_eq!(DW_TAG_VARIABLE, gimli::DW_TAG_variable.0);
    assert_eq!(DW_TAG_CLASS_TYPE, gimli::DW_TAG_class_type.0);
    assert_eq!(DW_TAG_STRUCTURE_TYPE, gimli::DW_TAG_structure_type.0);
    assert_eq!(DW_TAG_MEMBER, gimli::DW_TAG_member.0);
    assert_eq!(DW_TAG_ENUMERATION_TYPE, gimli::DW_TAG_enumeration_type.0);
    assert_eq!(DW_TAG_ENUMERATOR, gimli::DW_TAG_enumerator.0);
    assert_eq!(DW_TAG_TYPEDEF, gimli::DW_TAG_typedef.0);
    assert_eq!(DW_TAG_NAMESPACE, gimli::DW_TAG_namespace.0);
    assert_eq!(DW_AT_NAME, gimli::DW_AT_name.0);
    assert_eq!(DW_AT_LOW_PC, gimli::DW_AT_low_pc.0);
    assert_eq!(DW_AT_HIGH_PC, gimli::DW_AT_high_pc.0);
    assert_eq!(DW_AT_TYPE, gimli::DW_AT_type.0);
    assert_eq!(DW_AT_LOCATION, gimli::DW_AT_location.0);
    assert_eq!(DW_AT_BYTE_SIZE, gimli::DW_AT_byte_size.0);
    assert_eq!(DW_AT_ALIGNMENT, gimli::DW_AT_alignment.0);
    assert_eq!(DW_AT_DATA_MEMBER_LOCATION, gimli::DW_AT_data_member_location.0);
    assert_eq!(DW_AT_VISIBILITY, gimli::DW_AT_visibility.0);
    assert_eq!(DW_AT_EXTERNAL, gimli::DW_AT_external.0);
    assert_eq!(DW_AT_CONST_VALUE, gimli::DW_AT_const_value.0);
}

#[test]
fn function_takes_last_addresses() {
    let e = entry(0, DW_TAG_SUBPROGRAM, vec![
        attr(DW_AT_NAME, AttrValue::Str(b"f".to_vec())),
        attr(DW_AT_LOW_PC, AttrValue::Addr(0x100)),
        attr(DW_AT_HIGH_PC, AttrValue::Udata(0x40)),
        attr(DW_AT_LOW_PC, AttrValue::Addr(0x200)),
    ], vec![]);
    let f = parse_function(&e).ok().unwrap();
    assert_eq!(f.name, "");
    assert_eq!(f.address, 0x200);
    assert_eq!(f.size, 0);
    assert!(f.parameters.is_empty() && f.local_variables.is_empty());
}

#[test]
fn variable_fields() {
    let e = entry(0, DW_TAG_VARIABLE, vec![
        attr(DW_AT_NAME, AttrValue::Str(b"counter".to_vec())),
        attr(DW_AT_TYPE, AttrValue::DebugTypesRef(7)),
        attr(DW_AT_LOCATION, AttrValue::Addr(0x1000)),
    ], vec![]);
    let v = parse_variable(&e).ok().unwrap();
    assert_eq!(v.name, "");
    assert_eq!(v.var_type, "TypePlaceholder");
    assert_eq!(v.address, Some(0x1000));
    let plain = entry(0, DW_TAG_VARIABLE, vec![attr(DW_AT_TYPE, AttrValue::UnitRef(3))], vec![]);
    let v = parse_variable(&plain).ok().unwrap();
    assert_eq!(v.var_type, "");
    assert_eq!(v.address, None);
}

#[test]
fn variable_with_bad_name_fails() {
    let e = entry(0, DW_TAG_VARIABLE, vec![attr(DW_AT_NAME, AttrValue::Str(vec![0xff, 0x00]))], vec![]);
    assert!(matches!(parse_variable(&e), Err(DebuggerError::Gimli(gimli::Error::BadUtf8))));
}

#[test]
fn entries_fill_storage() {
    let mut storage = DebugInfoStorage { functions: vec![], global_variables: vec![] };
    let f = entry(0, DW_TAG_SUBPROGRAM, vec![attr(DW_AT_LOW_PC, AttrValue::Addr(8))], vec![]);
    let v = entry(1, DW_TAG_VARIABLE, vec![attr(DW_AT_LOCATION, AttrValue::Addr(9))], vec![]);
    let other = entry(2, DW_TAG_TYPEDEF, vec![], vec![]);
    assert!(parse_entry(&[], &f, &mut storage).is_ok());
    assert!(parse_entry(&[], &v, &mut storage).is_ok());
    assert!(parse_entry(&[], &other, &mut storage).is_ok());
    assert_eq!(storage.functions.len(), 1);
    assert_eq!(storage.functions[0].address, 8);
    assert_eq!(storage.global_variables.len(), 1);
    assert_eq!(storage.global_variables[0].address, Some(9));
    let bad = entry(3, DW_TAG_VARIABLE, vec![attr(DW_AT_NAME, AttrValue::Str(vec![0xc3]))], vec![]);
    assert!(parse_entry(&[], &bad, &mut storage).is_err());
    assert_eq!(storage.global_variables.len(), 1);
}

#[test]
fn die_names_from_debug_str() {
    let d = strings();
    let named = entry(0, DW_TAG_STRUCTURE_TYPE, vec![attr(DW_AT_NAME, AttrValue::DebugStrRef(0))], vec![]);
    assert_eq!(get_die_name(&named, &d).ok().unwrap(), Some("Point".to_string()));
    let inner = entry(0, DW_TAG_STRUCTURE_TYPE, vec![attr(DW_AT_NAME, AttrValue::DebugStrRef(2))], vec![]);
    assert_eq!(get_die_name(&inner, &d).ok().unwrap(), Some("int".to_string()));
    let lossy = entry(0, DW_TAG_STRUCTURE_TYPE, vec![attr(DW_AT_NAME, AttrValue::DebugStrRef(21))], vec![]);
    assert_eq!(get_die_name(&lossy, &d).ok().unwrap(), Some("\u{fffd}\u{fffd}".to_string()));
    let past_end = entry(0, DW_TAG_STRUCTURE_TYPE, vec![attr(DW_AT_NAME, AttrValue::DebugStrRef(100))], vec![]);
    assert_eq!(get_die_name(&past_end, &d).ok().unwrap(), None);
    let inline = entry(0, DW_TAG_STRUCTURE_TYPE, vec![attr(DW_AT_NAME, AttrValue::Str(b"P".to_vec()))], vec![]);
    assert_eq!(get_die_name(&inline, &d).ok().unwrap(), None);
    let mut unterminated = DwarfSections::empty();
    unterminated.debug_str = b"abc".to_vec();
    assert_eq!(get_die_name(&named, &unterminated).ok().unwrap(), None);
}

fn member(offset: usize, name_at: usize, location: u64) -> DebugInfoEntry {
    entry(offset, DW_TAG_MEMBER, vec![
        attr(DW_AT_NAME, AttrValue::DebugStrRef(name_at)),
        attr(DW_AT_TYPE, AttrValue::UnitRef(0x30)),
        attr(DW_AT_DATA_MEMBER_LOCATION, AttrValue::Data1(location as u8)),
        attr(DW_AT_BYTE_SIZE, AttrValue::Sdata(4)),
        attr(DW_AT_VISIBILITY, AttrValue::Data1(1)),
        attr(DW_AT_EXTERNAL, AttrValue::Flag(true)),
    ], vec![])
}

#[test]
fn member_variable_fields() {
    let d = strings();
    let unit = Unit { entries: vec![] };
    let m = process_member_variable(&member(0x40, 6, 8), &d, &unit).ok().unwrap();
    assert_eq!(m.name, "x");
    let unit_ref: gimli::AttributeValue<gimli::EndianSlice<gimli::LittleEndian>> =
        gimli::AttributeValue::UnitRef(gimli::UnitOffset(0x30));
    assert_eq!(m.var_type, Some(format!("{:?}", unit_ref)));
    assert_eq!(m.offset, Some(8));
    assert_eq!(m.size, Some(4));
    let vis: gimli::AttributeValue<gimli::EndianSlice<gimli::LittleEndian>> = gimli::AttributeValue::Data1(1);
    assert_eq!(m.visibility, Some(format!("{:?}", vis)));
    assert!(m.is_static);
    let bare = entry(0x50, DW_TAG_MEMBER, vec![attr(DW_AT_BYTE_SIZE, AttrValue::Sdata(-1))], vec![]);
    let m = process_member_variable(&bare, &d, &unit).ok().unwrap();
    assert_eq!(m.name, "");
    assert_eq!(m.var_type, None);
    assert_eq!(m.offset, None);
    assert_eq!(m.size, None);
    assert_eq!(m.visibility, None);
    assert!(!m.is_static);
}

#[test]
fn class_or_struct_fields() {
    let d = strings();
    let unit = Unit { entries: vec![] };
    let s = entry(0x10, DW_TAG_STRUCTURE_TYPE, vec![
        attr(DW_AT_NAME, AttrValue::DebugStrRef(0)),
        attr(DW_AT_BYTE_SIZE, AttrValue::Data2(16)),
    ], vec![
        member(0x20, 6, 0),
        entry(0x28, DW_TAG_SUBPROGRAM, vec![], vec![]),
        member(0x30, 6, 8),
    ]);
    let c = process_class_or_struct(&s, &d, &unit).ok().unwrap();
    assert_eq!(c.name, "Point");
    assert_eq!(c.size, Some(16));
    assert_eq!(c.alignment, Some(0));
    assert_eq!(c.members.len(), 2);
    assert_eq!(c.members[1].offset, Some(8));
    let not_a_class = entry(0x10, DW_TAG_TYPEDEF, vec![], vec![]);
    assert!(matches!(
        process_class_or_struct(&not_a_class, &d, &unit),
        Err(gimli::Error::NoEntryAtGivenOffset)
    ));
}

#[test]
fn constants_enums_and_typedefs() {
    let d = strings();
    let c = entry(0, DW_TAG_VARIABLE, vec![
        attr(DW_AT_NAME, AttrValue::DebugStrRef(6)),
        attr(DW_AT_CONST_VALUE, AttrValue::Udata(42)),
    ], vec![]);
    let info = parse_constant(&c, &d).ok().unwrap();
    assert_eq!(info.name, "x");
    let v: gimli::AttributeValue<gimli::EndianSlice<gimli::LittleEndian>> = gimli::AttributeValue::Udata(42);
    assert_eq!(info.value, format!("{:?}", v));
    let none = parse_constant(&entry(0, DW_TAG_VARIABLE, vec![], vec![]), &d).ok().unwrap();
    assert_eq!(none.value, "");

    let unit = Unit { entries: vec![entry(0x30, DW_TAG_STRUCTURE_TYPE, vec![attr(DW_AT_NAME, AttrValue::DebugStrRef(0))], vec![])] };
    let e = entry(0x40, DW_TAG_ENUMERATION_TYPE, vec![], vec![
        entry(0x41, DW_TAG_ENUMERATOR, vec![attr(DW_AT_NAME, AttrValue::DebugStrRef(8))], vec![]),
        entry(0x42, DW_TAG_ENUMERATOR, vec![], vec![]),
        entry(0x43, DW_TAG_ENUMERATOR, vec![attr(DW_AT_NAME, AttrValue::DebugStrRef(12))], vec![]),
        entry(0x44, DW_TAG_MEMBER, vec![attr(DW_AT_NAME, AttrValue::DebugStrRef(6))], vec![]),
    ]);
    let info = parse_enum(&e, &d, &unit).ok().unwrap();
    assert_eq!(info.name, "");
    assert_eq!(info.variants, vec!["Red".to_string(), "Green".to_string()]);

    let t = entry(0x50, DW_TAG_TYPEDEF, vec![attr(DW_AT_NAME, AttrValue::DebugStrRef(6)), attr(DW_AT_TYPE, AttrValue::UnitRef(0x30))], vec![]);
    let info = parse_typedef(&t, &d, &unit).ok().unwrap();
    assert_eq!(info.name, "x");
    assert_eq!(info.aliased_type, "Point");
    assert_eq!(resolve_type(&d, &unit, &AttrValue::UnitRef(0x31)).ok().unwrap(), "");
    assert_eq!(resolve_type(&d, &unit, &AttrValue::Data4(0x30)).ok().unwrap(), "");
}

#[test]
fn namespace_members() {
    let d = strings();
    let unit = Unit { entries: vec![] };
    let ns = entry(0x60, DW_TAG_NAMESPACE, vec![attr(DW_AT_NAME, AttrValue::DebugStrRef(18))], vec![
        entry(0x61, DW_TAG_CLASS_TYPE, vec![attr(DW_AT_NAME, AttrValue::DebugStrRef(0))], vec![]),
        entry(0x62, DW_TAG_STRUCTURE_TYPE, vec![], vec![]),
        entry(0x63, DW_TAG_SUBPROGRAM, vec![attr(DW_AT_LOW_PC, AttrValue::Addr(0x99))], vec![]),
        entry(0x64, DW_TAG_ENUMERATION_TYPE, vec![], vec![]),
        entry(0x65, DW_TAG_TYPEDEF, vec![], vec![]),
        entry(0x66, DW_TAG_VARIABLE, vec![], vec![]),
    ]);
    let info = parse_namespace(&ns, &d, &unit).ok().unwrap();
    assert_eq!(info.name, "ns");
    assert_eq!(info.members.len(), 4);
    assert!(matches!(&info.members[0], Symbol::ClassOrStruct(c) if c.name == "Point"));
    assert!(matches!(&info.members[1], Symbol::Function(f) if f.address == 0x99));
    assert!(matches!(&info.members[2], Symbol::Enum(_)));
    assert!(matches!(&info.members[3], Symbol::Typedef(_)));
}

#[test]
fn custom_sections_fill_one_slot() {
    let d = parse_custom_section(".debug_info", &[1, 2, 3]).unwrap();
    assert_eq!(d.debug_info, vec![1, 2, 3]);
    assert!(d.debug_abbrev.is_empty() && d.debug_str.is_empty() && d.debug_line.is_empty());
    let d = parse_custom_section(".debug_str_offsets", &[9]).unwrap();
    assert_eq!(d.debug_str_offsets, vec![9]);
    assert!(d.debug_info.is_empty());
    let d = parse_custom_section(".debug_loc", &[9]).unwrap();
    let e = parse_custom_section("name", &[9]).unwrap();
    for s in [&d, &e] {
        assert!(s.debug_info.is_empty() && s.debug_abbrev.is_empty() && s.debug_addr.is_empty()
            && s.debug_aranges.is_empty() && s.debug_line.is_empty() && s.debug_line_str.is_empty()
            && s.debug_str.is_empty() && s.debug_str_offsets.is_empty() && s.debug_types.is_empty());
    }
    assert_eq!(parse_custom_section(".debug_types", &[4]).unwrap().debug_types, vec![4]);
    assert_eq!(parse_custom_section(".debug_line_str", &[5]).unwrap().debug_line_str, vec![5]);
    assert_eq!(parse_custom_section(".debug_aranges", &[6]).unwrap().debug_aranges, vec![6]);
}

#[test]
fn dwarf_section_names() {
    for n in [".debug_info", ".debug_line", ".debug_abbrev", ".debug_str", ".debug_ranges", ".debug_pubtypes", ".debug_pubnames"] {
        assert!(is_dwarf_section(n));
    }
    for n in [".debug_loc", "debug_info", ".debug_info ", "", "name"] {
        assert!(!is_dwarf_section(n));
    }
}

#[test]
fn abbrev_section_replaced() {
    let mut d = strings();
    assert!(parse_abbrev_info_section(&[1, 1, 0x11], &mut d).is_ok());
    assert_eq!(d.debug_abbrev, vec![1, 1, 0x11]);
    assert_eq!(d.debug_str, strings().debug_str);
}
