use vstd::prelude::*;

use crate::custom_sections::DwarfSections;
use crate::die_types::models::die::{
    law_attr_is_first_with_name, spec_attr, spec_attr_value, spec_udata_value, AttrValue, DebugInfoEntry, Unit,
    DW_AT_ALIGNMENT, DW_AT_BYTE_SIZE, DW_AT_DATA_MEMBER_LOCATION, DW_AT_EXTERNAL, DW_AT_NAME,
    DW_AT_TYPE, DW_AT_VISIBILITY, DW_TAG_CLASS_TYPE, DW_TAG_MEMBER, DW_TAG_STRUCTURE_TYPE,
};
use crate::die_types::models::member_variable_info::{MemberVariableInfo, MemberVariableInfoView};
use crate::die_types::models::type_info::{members_view, ClassOrStructInfo, ClassOrStructInfoView};
use crate::dwarf_reader::{
    attr_value_debug, debug_str_get, endian_slice_to_string_lossy, gimli_error, spec_gimli_error, GimliErrorKind,
    spec_attr_value_debug, spec_debug_str_at, spec_utf8_lossy,
};
use crate::text::opt_string_view;

verus! {

/// The name of an entry: the string in `.debug_str` at the offset that its
/// first `DW_AT_name` attribute holds, decoded leniently; nothing where that
/// attribute is missing, holds something else, or the string cannot be read.
pub open spec fn spec_die_name(e: DebugInfoEntry, debug_str: Seq<u8>) -> Option<Seq<char>> {
    match spec_attr(e, DW_AT_NAME) {
        Some(a) => match a.value {
            AttrValue::DebugStrRef(offset) => match spec_debug_str_at(debug_str, offset as int) {
                Some(bytes) => Some(spec_utf8_lossy(bytes)),
                None => None,
            },
            _ => None,
        },
        None => None,
    }
}

/// A name, or the empty string where there is none.
pub open spec fn spec_name_or_default(n: Option<Seq<char>>) -> Seq<char> {
    match n {
        Some(s) => s,
        None => Seq::empty(),
    }
}

/// `o`'s value, or 0 where there is none.
pub open spec fn spec_or_zero(o: Option<u64>) -> u64 {
    match o {
        Some(v) => v,
        None => 0,
    }
}

/// The value of the first attribute named `name` as an unsigned number.
pub open spec fn spec_attr_udata(e: DebugInfoEntry, name: u16) -> Option<u64> {
    match spec_attr_value(e, name) {
        Some(v) => spec_udata_value(v),
        None => None,
    }
}

/// The `Debug` text of the value of the first attribute named `name`.
pub open spec fn spec_attr_debug(e: DebugInfoEntry, name: u16) -> Option<Seq<char>> {
    match spec_attr_value(e, name) {
        Some(v) => Some(spec_attr_value_debug(v@)),
        None => None,
    }
}

/// The member that a `DW_TAG_member` entry describes.
pub open spec fn spec_member_variable(e: DebugInfoEntry, debug_str: Seq<u8>) -> MemberVariableInfoView {
    MemberVariableInfoView {
        name: spec_name_or_default(spec_die_name(e, debug_str)),
        var_type: spec_attr_debug(e, DW_AT_TYPE),
        offset: spec_attr_udata(e, DW_AT_DATA_MEMBER_LOCATION),
        size: spec_attr_udata(e, DW_AT_BYTE_SIZE),
        visibility: spec_attr_debug(e, DW_AT_VISIBILITY),
        is_static: spec_attr_value(e, DW_AT_EXTERNAL) matches Some(AttrValue::Flag(true)),
    }
}

/// The members described by the `DW_TAG_member` entries among the first `k` children.
pub open spec fn spec_members(children: Seq<DebugInfoEntry>, debug_str: Seq<u8>, k: int) -> Seq<
    MemberVariableInfoView,
>
    decreases k,
{
    if k <= 0 {
        Seq::empty()
    } else if children[k - 1].tag == DW_TAG_MEMBER {
        spec_members(children, debug_str, k - 1).push(spec_member_variable(children[k - 1], debug_str))
    } else {
        spec_members(children, debug_str, k - 1)
    }
}

/// Whether an entry describes a class or a struct.
pub open spec fn spec_is_class_or_struct(e: DebugInfoEntry) -> bool {
    e.tag == DW_TAG_CLASS_TYPE || e.tag == DW_TAG_STRUCTURE_TYPE
}

/// The class or struct that an entry describes: its name, its byte size
/// and alignment (0 where missing), and the members among its children.
pub open spec fn spec_class_or_struct(e: DebugInfoEntry, debug_str: Seq<u8>) -> ClassOrStructInfoView {
    ClassOrStructInfoView {
        name: spec_name_or_default(spec_die_name(e, debug_str)),
        size: Some(spec_or_zero(spec_attr_udata(e, DW_AT_BYTE_SIZE))),
        alignment: Some(spec_or_zero(spec_attr_udata(e, DW_AT_ALIGNMENT))),
        members: spec_members(e.children@, debug_str, e.children@.len() as int),
    }
}

/// The name of `entry`, where it has one that can be read (see [`spec_die_name`]).
pub fn get_die_name(entry: &DebugInfoEntry, dwarf: &DwarfSections) -> (res: Result<
    Option<String>,
    gimli::Error,
>)
    ensures
        res matches Ok(n) && opt_string_view(n) == spec_die_name(*entry, dwarf.debug_str@),
{
    if let Some(attr) = entry.attr(DW_AT_NAME) {
        if let AttrValue::DebugStrRef(name_offset) = attr.value {
            if let Some(name) = debug_str_get(dwarf.debug_str.as_slice(), name_offset) {
                return Ok(Some(endian_slice_to_string_lossy(name.as_slice())));
            }
        }
    }
    Ok(None)
}

/// The name of `entry`, or the empty string.
pub(crate) fn die_name_or_default(entry: &DebugInfoEntry, dwarf: &DwarfSections) -> (r: String)
    ensures
        r@ == spec_name_or_default(spec_die_name(*entry, dwarf.debug_str@)),
{
    match get_die_name(entry, dwarf) {
        Ok(Some(n)) => n,
        _ => String::new(),
    }
}

/// The value of the first attribute named `name` as an unsigned number.
fn attr_udata(entry: &DebugInfoEntry, name: u16) -> (r: Option<u64>)
    ensures
        r == spec_attr_udata(*entry, name),
{
    match entry.attr_value(name) {
        Some(v) => v.udata_value(),
        None => None,
    }
}

/// The `Debug` text of the value of the first attribute named `name`.
pub fn attr_debug(entry: &DebugInfoEntry, name: u16) -> (r: Option<String>)
    ensures
        opt_string_view(r) == spec_attr_debug(*entry, name),
{
    match entry.attr_value(name) {
        Some(v) => Some(attr_value_debug(v)),
        None => None,
    }
}

/// Reads the member that a `DW_TAG_member` entry describes.
pub fn process_member_variable(entry: &DebugInfoEntry, dwarf: &DwarfSections, unit: &Unit) -> (res:
    Result<MemberVariableInfo, gimli::Error>)
    ensures
        res matches Ok(m) && m@ == spec_member_variable(*entry, dwarf.debug_str@),
{
    let name = die_name_or_default(entry, dwarf);
    let var_type = attr_debug(entry, DW_AT_TYPE);
    let offset = attr_udata(entry, DW_AT_DATA_MEMBER_LOCATION);
    let size = attr_udata(entry, DW_AT_BYTE_SIZE);
    let visibility = attr_debug(entry, DW_AT_VISIBILITY);
    let is_static = match entry.attr_value(DW_AT_EXTERNAL) {
        Some(AttrValue::Flag(true)) => true,
        _ => false,
    };
    Ok(MemberVariableInfo { name, var_type, offset, size, visibility, is_static })
}

/// Reads the class or struct that an entry describes. It fails exactly when
/// the entry is neither a class nor a struct.
pub fn process_class_or_struct(entry: &DebugInfoEntry, dwarf: &DwarfSections, unit: &Unit) -> (res:
    Result<ClassOrStructInfo, gimli::Error>)
    ensures
        res is Ok <==> spec_is_class_or_struct(*entry),
        res matches Ok(c) ==> c@ == spec_class_or_struct(*entry, dwarf.debug_str@),
        res matches Err(e) ==> e == spec_gimli_error(GimliErrorKind::NoEntryAtGivenOffset),
{
    if entry.tag == DW_TAG_CLASS_TYPE || entry.tag == DW_TAG_STRUCTURE_TYPE {
        let name = die_name_or_default(entry, dwarf);
        let size = match attr_udata(entry, DW_AT_BYTE_SIZE) {
            Some(s) => s,
            None => 0,
        };
        let alignment = match attr_udata(entry, DW_AT_ALIGNMENT) {
            Some(a) => a,
            None => 0,
        };
        let mut members: Vec<MemberVariableInfo> = Vec::new();
        let mut i: usize = 0;
        assert(members_view(members@) =~= spec_members(entry.children@, dwarf.debug_str@, 0));
        while i < entry.children.len()
            invariant
                i <= entry.children@.len(),
                members_view(members@) == spec_members(entry.children@, dwarf.debug_str@, i as int),
            decreases entry.children@.len() - i,
        {
            let child = &entry.children[i];
            if child.tag == DW_TAG_MEMBER {
                let member_info = match process_member_variable(child, dwarf, unit) {
                    Ok(m) => m,
                    Err(e) => {
                        return Err(e);
                    },
                };
                let ghost before = members@;
                members.push(member_info);
                assert(members_view(members@) =~= members_view(before).push(
                    spec_member_variable(*child, dwarf.debug_str@),
                ));
            }
            i = i + 1;
        }
        Ok(ClassOrStructInfo { name, size: Some(size), alignment: Some(alignment), members })
    } else {
        Err(gimli_error(GimliErrorKind::NoEntryAtGivenOffset))
    }
}

/// The alignment of the class or struct read from an entry is the unsigned
/// value of its first `DW_AT_alignment` attribute (0 where that value is not an
/// unsigned number), and 0 where the entry has no such attribute.
pub proof fn law_class_alignment(e: DebugInfoEntry, debug_str: Seq<u8>, i: int)
    ensures
        0 <= i < e.attrs@.len() && e.attrs@[i].name == DW_AT_ALIGNMENT && (forall|j: int|
            0 <= j < i ==> #[trigger] e.attrs@[j].name != DW_AT_ALIGNMENT) ==> spec_class_or_struct(e, debug_str).alignment == Some(
            spec_or_zero(spec_udata_value(e.attrs@[i].value)),
        ),
        (forall|j: int| 0 <= j < e.attrs@.len() ==> #[trigger] e.attrs@[j].name != DW_AT_ALIGNMENT) ==> spec_class_or_struct(
            e,
            debug_str,
        ).alignment == Some(0u64),
{
    law_attr_is_first_with_name(e, DW_AT_ALIGNMENT, i);
}

/// The size of the class or struct read from an entry is the unsigned
/// value of its first `DW_AT_byte_size` attribute (0 where that value is not an
/// unsigned number), and 0 where the entry has no such attribute.
pub proof fn law_class_size(e: DebugInfoEntry, debug_str: Seq<u8>, i: int)
    ensures
        0 <= i < e.attrs@.len() && e.attrs@[i].name == DW_AT_BYTE_SIZE && (forall|j: int|
            0 <= j < i ==> #[trigger] e.attrs@[j].name != DW_AT_BYTE_SIZE) ==> spec_class_or_struct(e, debug_str).size == Some(
            spec_or_zero(spec_udata_value(e.attrs@[i].value)),
        ),
        (forall|j: int| 0 <= j < e.attrs@.len() ==> #[trigger] e.attrs@[j].name != DW_AT_BYTE_SIZE) ==> spec_class_or_struct(
            e,
            debug_str,
        ).size == Some(0u64),
{
    law_attr_is_first_with_name(e, DW_AT_BYTE_SIZE, i);
}

/// The name of the class or struct read from an entry is the entry's own
/// name, or empty where it has none.
pub proof fn law_class_name(e: DebugInfoEntry, debug_str: Seq<u8>)
    ensures
        spec_class_or_struct(e, debug_str).name == spec_name_or_default(spec_die_name(e, debug_str)),
{
}

/// The name of an entry is the lenient decoding of the string in
/// `.debug_str` at the offset its first `DW_AT_name` attribute holds.
pub proof fn law_die_name(e: DebugInfoEntry, debug_str: Seq<u8>, i: int, offset: usize)
    ensures
        0 <= i < e.attrs@.len() && e.attrs@[i].name == DW_AT_NAME && (forall|j: int|
            0 <= j < i ==> #[trigger] e.attrs@[j].name != DW_AT_NAME) && e.attrs@[i].value == AttrValue::DebugStrRef(offset) ==> spec_die_name(
            e,
            debug_str,
        ) == match spec_debug_str_at(debug_str, offset as int) {
            Some(bytes) => Some(spec_utf8_lossy(bytes)),
            None => None,
        },
        (forall|j: int| 0 <= j < e.attrs@.len() ==> #[trigger] e.attrs@[j].name != DW_AT_NAME) ==> spec_die_name(e, debug_str) is None,
{
    law_attr_is_first_with_name(e, DW_AT_NAME, i);
}

/// A member read from a `DW_TAG_member` entry has the entry's name, the
/// unsigned values of its first `DW_AT_data_member_location` and
/// `DW_AT_byte_size` attributes, and is static exactly where its first
/// `DW_AT_external` attribute holds the flag `true`.
pub proof fn law_member_fields(e: DebugInfoEntry, debug_str: Seq<u8>, i: int)
    ensures
        spec_member_variable(e, debug_str).name == spec_name_or_default(spec_die_name(e, debug_str)),
        0 <= i < e.attrs@.len() && e.attrs@[i].name == DW_AT_DATA_MEMBER_LOCATION && (forall|j: int|
            0 <= j < i ==> #[trigger] e.attrs@[j].name != DW_AT_DATA_MEMBER_LOCATION) ==> spec_member_variable(e, debug_str).offset
            == spec_udata_value(e.attrs@[i].value),
        0 <= i < e.attrs@.len() && e.attrs@[i].name == DW_AT_BYTE_SIZE && (forall|j: int|
            0 <= j < i ==> #[trigger] e.attrs@[j].name != DW_AT_BYTE_SIZE) ==> spec_member_variable(e, debug_str).size
            == spec_udata_value(e.attrs@[i].value),
        0 <= i < e.attrs@.len() && e.attrs@[i].name == DW_AT_EXTERNAL && (forall|j: int|
            0 <= j < i ==> #[trigger] e.attrs@[j].name != DW_AT_EXTERNAL) ==> (spec_member_variable(e, debug_str).is_static
            <==> e.attrs@[i].value == AttrValue::Flag(true)),
        (forall|j: int| 0 <= j < e.attrs@.len() ==> #[trigger] e.attrs@[j].name != DW_AT_EXTERNAL) ==> !spec_member_variable(e, debug_str).is_static,
{
    law_attr_is_first_with_name(e, DW_AT_DATA_MEMBER_LOCATION, i);
    law_attr_is_first_with_name(e, DW_AT_BYTE_SIZE, i);
    law_attr_is_first_with_name(e, DW_AT_EXTERNAL, i);
}

/// A member read from a `DW_TAG_member` entry has as its type and its
/// visibility the `Debug` text of the value of its first `DW_AT_type` and
/// `DW_AT_visibility` attribute, and nothing where there is none.
pub proof fn law_member_type_and_visibility(e: DebugInfoEntry, debug_str: Seq<u8>, i: int)
    ensures
        0 <= i < e.attrs@.len() && e.attrs@[i].name == DW_AT_TYPE && (forall|j: int|
            0 <= j < i ==> #[trigger] e.attrs@[j].name != DW_AT_TYPE) ==> spec_member_variable(e, debug_str).var_type
            == Some(spec_attr_value_debug(e.attrs@[i].value@)),
        (forall|j: int| 0 <= j < e.attrs@.len() ==> #[trigger] e.attrs@[j].name != DW_AT_TYPE) ==> spec_member_variable(e, debug_str).var_type is None,
        0 <= i < e.attrs@.len() && e.attrs@[i].name == DW_AT_VISIBILITY && (forall|j: int|
            0 <= j < i ==> #[trigger] e.attrs@[j].name != DW_AT_VISIBILITY) ==> spec_member_variable(e, debug_str).visibility
            == Some(spec_attr_value_debug(e.attrs@[i].value@)),
        (forall|j: int| 0 <= j < e.attrs@.len() ==> #[trigger] e.attrs@[j].name != DW_AT_VISIBILITY) ==> spec_member_variable(e, debug_str).visibility is None,
{
    law_attr_is_first_with_name(e, DW_AT_TYPE, i);
    law_attr_is_first_with_name(e, DW_AT_VISIBILITY, i);
}

proof fn lemma_members_all(children: Seq<DebugInfoEntry>, debug_str: Seq<u8>, k: int)
    requires
        0 <= k <= children.len(),
        forall|j: int| 0 <= j < children.len() ==> #[trigger] children[j].tag == DW_TAG_MEMBER,
    ensures
        spec_members(children, debug_str, k).len() == k,
        forall|j: int|
            0 <= j < k ==> spec_members(children, debug_str, k)[j] == spec_member_variable(
                #[trigger] children[j],
                debug_str,
            ),
    decreases k,
{
    if k > 0 {
        lemma_members_all(children, debug_str, k - 1);
        assert(children[k - 1].tag == DW_TAG_MEMBER);
    }
}

proof fn lemma_members_none(children: Seq<DebugInfoEntry>, debug_str: Seq<u8>, k: int)
    requires
        0 <= k <= children.len(),
        forall|j: int| 0 <= j < children.len() ==> #[trigger] children[j].tag != DW_TAG_MEMBER,
    ensures
        spec_members(children, debug_str, k).len() == 0,
    decreases k,
{
    if k > 0 {
        lemma_members_none(children, debug_str, k - 1);
        assert(children[k - 1].tag != DW_TAG_MEMBER);
    }
}

/// The members of a class or struct are read from its `DW_TAG_member`
/// children, in order: where every child is a member, there is one member
/// for each child, read from it; where no child is, there is none.
pub proof fn law_class_members(e: DebugInfoEntry, debug_str: Seq<u8>)
    ensures
        (forall|j: int| 0 <= j < e.children@.len() ==> #[trigger] e.children@[j].tag == DW_TAG_MEMBER)
            ==> spec_class_or_struct(e, debug_str).members.len() == e.children@.len() && (forall|
            j: int,
        |
            0 <= j < e.children@.len() ==> spec_class_or_struct(e, debug_str).members[j]
                == spec_member_variable(#[trigger] e.children@[j], debug_str)),
        (forall|j: int| 0 <= j < e.children@.len() ==> #[trigger] e.children@[j].tag != DW_TAG_MEMBER)
            ==> spec_class_or_struct(e, debug_str).members.len() == 0,
{
    if forall|j: int| 0 <= j < e.children@.len() ==> #[trigger] e.children@[j].tag == DW_TAG_MEMBER {
        lemma_members_all(e.children@, debug_str, e.children@.len() as int);
    }
    if forall|j: int| 0 <= j < e.children@.len() ==> #[trigger] e.children@[j].tag != DW_TAG_MEMBER {
        lemma_members_none(e.children@, debug_str, e.children@.len() as int);
    }
}

} // verus!
