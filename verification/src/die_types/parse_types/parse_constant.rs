use vstd::prelude::*;

use crate::custom_sections::DwarfSections;
use crate::die_types::models::die::{law_attr_is_first_with_name, DebugInfoEntry, DW_AT_CONST_VALUE};
use crate::dwarf_reader::spec_attr_value_debug;
use crate::die_types::models::type_info::{ConstantInfo, ConstantInfoView};
use crate::die_types::parse_types::parse_class::{
    attr_debug, die_name_or_default, spec_attr_debug, spec_die_name, spec_name_or_default,
};

verus! {

/// The constant that an entry describes: its name and the `Debug` text of
/// its `DW_AT_const_value` attribute (empty where there is none).
pub open spec fn spec_constant(e: DebugInfoEntry, debug_str: Seq<u8>) -> ConstantInfoView {
    ConstantInfoView {
        name: spec_name_or_default(spec_die_name(e, debug_str)),
        value: spec_name_or_default(spec_attr_debug(e, DW_AT_CONST_VALUE)),
    }
}

/// Reads the constant that an entry describes.
pub fn parse_constant(entry: &DebugInfoEntry, dwarf: &DwarfSections) -> (res: Result<
    ConstantInfo,
    gimli::Error,
>)
    ensures
        res matches Ok(c) && c@ == spec_constant(*entry, dwarf.debug_str@),
{
    let name = die_name_or_default(entry, dwarf);
    let value = match attr_debug(entry, DW_AT_CONST_VALUE) {
        Some(v) => v,
        None => String::new(),
    };
    Ok(ConstantInfo { name, value })
}

/// The name of the constant read from an entry is the entry's own name,
/// or empty where it has none.
pub proof fn law_constant_name(e: DebugInfoEntry, debug_str: Seq<u8>)
    ensures
        spec_constant(e, debug_str).name == spec_name_or_default(spec_die_name(e, debug_str)),
{
}

/// The value of the constant read from an entry is the `Debug` text of the
/// value of its first `DW_AT_const_value` attribute, or empty where it has
/// none.
pub proof fn law_constant_value(e: DebugInfoEntry, debug_str: Seq<u8>, i: int)
    ensures
        0 <= i < e.attrs@.len() && e.attrs@[i].name == DW_AT_CONST_VALUE && (forall|j: int|
            0 <= j < i ==> #[trigger] e.attrs@[j].name != DW_AT_CONST_VALUE) ==> spec_constant(e, debug_str).value
            == spec_attr_value_debug(e.attrs@[i].value@),
        (forall|j: int| 0 <= j < e.attrs@.len() ==> #[trigger] e.attrs@[j].name != DW_AT_CONST_VALUE) ==> spec_constant(e, debug_str).value == Seq::<char>::empty(),
{
    law_attr_is_first_with_name(e, DW_AT_CONST_VALUE, i);
}

} // verus!
