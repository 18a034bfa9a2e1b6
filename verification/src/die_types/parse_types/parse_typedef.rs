use vstd::prelude::*;

use crate::custom_sections::DwarfSections;
use crate::die_types::models::die::{
    law_attr_is_first_with_name, spec_attr, spec_entry_from, AttrValue, DebugInfoEntry, Unit, DW_AT_TYPE,
};
use crate::die_types::models::type_info::{TypedefInfo, TypedefInfoView};
use crate::die_types::parse_types::parse_class::{
    die_name_or_default, spec_die_name, spec_name_or_default,
};

verus! {

/// The name of the type that an attribute value refers to: for a reference
/// to an entry of `unit`, that entry's name (empty where it has none); empty
/// for any other value.
pub open spec fn spec_resolve_type(unit: Unit, value: AttrValue, debug_str: Seq<u8>) -> Seq<char> {
    match value {
        AttrValue::UnitRef(offset) => match spec_entry_from(unit.entries@, offset, 0) {
            Some(t) => spec_name_or_default(spec_die_name(t, debug_str)),
            None => Seq::empty(),
        },
        _ => Seq::empty(),
    }
}

/// The alias that a typedef entry describes: its name, and the name of the
/// type its `DW_AT_type` attribute refers to (empty where it has none).
pub open spec fn spec_typedef(e: DebugInfoEntry, unit: Unit, debug_str: Seq<u8>) -> TypedefInfoView {
    TypedefInfoView {
        name: spec_name_or_default(spec_die_name(e, debug_str)),
        aliased_type: match spec_attr(e, DW_AT_TYPE) {
            Some(a) => spec_resolve_type(unit, a.value, debug_str),
            None => Seq::empty(),
        },
    }
}

/// The name of the type that `value` refers to (see [`spec_resolve_type`]).
pub fn resolve_type(dwarf: &DwarfSections, unit: &Unit, value: &AttrValue) -> (res: Result<
    String,
    gimli::Error,
>)
    ensures
        res matches Ok(s) && s@ == spec_resolve_type(*unit, *value, dwarf.debug_str@),
{
    if let AttrValue::UnitRef(offset) = value {
        if let Some(type_entry) = unit.entry(*offset) {
            return Ok(die_name_or_default(type_entry, dwarf));
        }
    }
    Ok(String::new())
}

/// Reads the alias that a typedef entry describes.
pub fn parse_typedef(entry: &DebugInfoEntry, dwarf: &DwarfSections, unit: &Unit) -> (res: Result<
    TypedefInfo,
    gimli::Error,
>)
    ensures
        res matches Ok(t) && t@ == spec_typedef(*entry, *unit, dwarf.debug_str@),
{
    let name = die_name_or_default(entry, dwarf);
    let aliased_type = if let Some(type_attr) = entry.attr(DW_AT_TYPE) {
        resolve_type(dwarf, unit, &type_attr.value)?
    } else {
        String::new()
    };
    Ok(TypedefInfo { name, aliased_type })
}

/// The name of the alias read from a typedef entry is the entry's own name,
/// or empty where it has none; where the entry has no `DW_AT_type`
/// attribute the aliased type is empty.
pub proof fn law_typedef_name(e: DebugInfoEntry, unit: Unit, debug_str: Seq<u8>)
    ensures
        spec_typedef(e, unit, debug_str).name == spec_name_or_default(spec_die_name(e, debug_str)),
        spec_attr(e, DW_AT_TYPE) is None ==> spec_typedef(e, unit, debug_str).aliased_type
            == Seq::<char>::empty(),
{
}

/// The aliased type of a typedef is the name of the entry of the unit at
/// the offset its first `DW_AT_type` attribute refers to (empty where that
/// entry has no name, where the unit has no entry there, or where the
/// attribute is no reference into the unit).
pub proof fn law_typedef_aliased_type(e: DebugInfoEntry, unit: Unit, debug_str: Seq<u8>, i: int, offset: usize)
    ensures
        0 <= i < e.attrs@.len() && e.attrs@[i].name == DW_AT_TYPE && (forall|j: int|
            0 <= j < i ==> #[trigger] e.attrs@[j].name != DW_AT_TYPE) && e.attrs@[i].value == AttrValue::UnitRef(offset)
            ==> spec_typedef(e, unit, debug_str).aliased_type == match spec_entry_from(
            unit.entries@,
            offset,
            0,
        ) {
            Some(t) => spec_name_or_default(spec_die_name(t, debug_str)),
            None => Seq::<char>::empty(),
        },
        0 <= i < e.attrs@.len() && e.attrs@[i].name == DW_AT_TYPE && (forall|j: int|
            0 <= j < i ==> #[trigger] e.attrs@[j].name != DW_AT_TYPE) && !(e.attrs@[i].value is UnitRef) ==> spec_typedef(e, unit, debug_str).aliased_type
            == Seq::<char>::empty(),
{
    law_attr_is_first_with_name(e, DW_AT_TYPE, i);
}

} // verus!
