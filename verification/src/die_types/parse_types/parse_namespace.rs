use vstd::prelude::*;

use crate::custom_sections::DwarfSections;
use crate::die_types::models::die::{
    DebugInfoEntry, Unit, DW_TAG_CLASS_TYPE, DW_TAG_ENUMERATION_TYPE, DW_TAG_SUBPROGRAM,
    DW_TAG_TYPEDEF,
};
use crate::die_types::models::type_info::{symbols_view, NamespaceInfo, NamespaceInfoView, Symbol, SymbolView};
use crate::die_types::parse_types::parse_class::{
    die_name_or_default, process_class_or_struct, spec_class_or_struct, spec_die_name,
    spec_name_or_default,
};
use crate::die_types::parse_types::parse_enum::{parse_enum, spec_enum};
use crate::die_types::parse_types::parse_typedef::{parse_typedef, spec_typedef};
use crate::wasm_parser::{parse_function, spec_parse_function};

verus! {

/// The member that a child entry of a namespace describes, where it is a
/// class, a function, an enumeration or a typedef.
pub open spec fn spec_namespace_member(e: DebugInfoEntry, unit: Unit, debug_str: Seq<u8>) -> Option<
    SymbolView,
> {
    if e.tag == DW_TAG_CLASS_TYPE {
        Some(SymbolView::ClassOrStruct(spec_class_or_struct(e, debug_str)))
    } else if e.tag == DW_TAG_SUBPROGRAM {
        Some(SymbolView::Function(spec_parse_function(e)))
    } else if e.tag == DW_TAG_ENUMERATION_TYPE {
        Some(SymbolView::Enum(spec_enum(e, debug_str)))
    } else if e.tag == DW_TAG_TYPEDEF {
        Some(SymbolView::Typedef(spec_typedef(e, unit, debug_str)))
    } else {
        None
    }
}

/// The members described by the first `k` children.
pub open spec fn spec_namespace_members(
    children: Seq<DebugInfoEntry>,
    unit: Unit,
    debug_str: Seq<u8>,
    k: int,
) -> Seq<SymbolView>
    decreases k,
{
    if k <= 0 {
        Seq::empty()
    } else {
        let before = spec_namespace_members(children, unit, debug_str, k - 1);
        match spec_namespace_member(children[k - 1], unit, debug_str) {
            Some(m) => before.push(m),
            None => before,
        }
    }
}

/// The namespace that an entry describes: its name and the classes,
/// functions, enumerations and typedefs among its children, in order.
pub open spec fn spec_namespace(e: DebugInfoEntry, unit: Unit, debug_str: Seq<u8>) -> NamespaceInfoView {
    NamespaceInfoView {
        name: spec_name_or_default(spec_die_name(e, debug_str)),
        members: spec_namespace_members(e.children@, unit, debug_str, e.children@.len() as int),
    }
}

/// Reads the namespace that an entry describes.
pub fn parse_namespace(entry: &DebugInfoEntry, dwarf: &DwarfSections, unit: &Unit) -> (res: Result<
    NamespaceInfo,
    gimli::Error,
>)
    ensures
        res matches Ok(n) && n@ == spec_namespace(*entry, *unit, dwarf.debug_str@),
{
    let name = die_name_or_default(entry, dwarf);
    let mut members: Vec<Symbol> = Vec::new();
    let mut i: usize = 0;
    assert(symbols_view(members@) =~= spec_namespace_members(
        entry.children@,
        *unit,
        dwarf.debug_str@,
        0,
    ));
    while i < entry.children.len()
        invariant
            i <= entry.children@.len(),
            symbols_view(members@) == spec_namespace_members(
                entry.children@,
                *unit,
                dwarf.debug_str@,
                i as int,
            ),
        decreases entry.children@.len() - i,
    {
        let child = &entry.children[i];
        let ghost before = members@;
        if child.tag == DW_TAG_CLASS_TYPE {
            if let Ok(class_info) = process_class_or_struct(child, dwarf, unit) {
                members.push(Symbol::ClassOrStruct(class_info));
            }
        } else if child.tag == DW_TAG_SUBPROGRAM {
            if let Ok(function_info) = parse_function(child) {
                members.push(Symbol::Function(function_info));
            }
        } else if child.tag == DW_TAG_ENUMERATION_TYPE {
            if let Ok(enum_info) = parse_enum(child, dwarf, unit) {
                members.push(Symbol::Enum(enum_info));
            }
        } else if child.tag == DW_TAG_TYPEDEF {
            if let Ok(typedef_info) = parse_typedef(child, dwarf, unit) {
                members.push(Symbol::Typedef(typedef_info));
            }
        }
        proof {
            match spec_namespace_member(*child, *unit, dwarf.debug_str@) {
                Some(m) => {
                    assert(symbols_view(members@) =~= symbols_view(before).push(m));
                },
                None => {
                    assert(members@ == before);
                },
            }
        }
        i = i + 1;
    }
    Ok(NamespaceInfo { name, members })
}

/// The name of the namespace read from an entry is the entry's own name,
/// or empty where it has none.
pub proof fn law_namespace_name(e: DebugInfoEntry, unit: Unit, debug_str: Seq<u8>)
    ensures
        spec_namespace(e, unit, debug_str).name == spec_name_or_default(spec_die_name(e, debug_str)),
{
}

/// Whether a child entry of a namespace is a class, a subprogram, an
/// enumeration or a typedef.
pub open spec fn spec_is_namespace_member_tag(c: DebugInfoEntry) -> bool {
    ||| c.tag == DW_TAG_CLASS_TYPE
    ||| c.tag == DW_TAG_SUBPROGRAM
    ||| c.tag == DW_TAG_ENUMERATION_TYPE
    ||| c.tag == DW_TAG_TYPEDEF
}

/// The member of the kind that the tag of `c` says, read from `c`.
pub open spec fn spec_member_of_kind(m: SymbolView, c: DebugInfoEntry, unit: Unit, debug_str: Seq<u8>) -> bool {
    &&& c.tag == DW_TAG_CLASS_TYPE ==> m == SymbolView::ClassOrStruct(spec_class_or_struct(c, debug_str))
    &&& c.tag == DW_TAG_SUBPROGRAM ==> m == SymbolView::Function(spec_parse_function(c))
    &&& c.tag == DW_TAG_ENUMERATION_TYPE ==> m == SymbolView::Enum(spec_enum(c, debug_str))
    &&& c.tag == DW_TAG_TYPEDEF ==> m == SymbolView::Typedef(spec_typedef(c, unit, debug_str))
}

proof fn lemma_namespace_members_all(children: Seq<DebugInfoEntry>, unit: Unit, debug_str: Seq<u8>, k: int)
    requires
        0 <= k <= children.len(),
        forall|j: int| 0 <= j < children.len() ==> spec_is_namespace_member_tag(#[trigger] children[j]),
    ensures
        spec_namespace_members(children, unit, debug_str, k).len() == k,
        forall|j: int|
            0 <= j < k ==> spec_member_of_kind(
                spec_namespace_members(children, unit, debug_str, k)[j],
                #[trigger] children[j],
                unit,
                debug_str,
            ),
    decreases k,
{
    if k > 0 {
        lemma_namespace_members_all(children, unit, debug_str, k - 1);
        assert(spec_is_namespace_member_tag(children[k - 1]));
    }
}

proof fn lemma_namespace_members_none(children: Seq<DebugInfoEntry>, unit: Unit, debug_str: Seq<u8>, k: int)
    requires
        0 <= k <= children.len(),
        forall|j: int| 0 <= j < children.len() ==> !spec_is_namespace_member_tag(#[trigger] children[j]),
    ensures
        spec_namespace_members(children, unit, debug_str, k).len() == 0,
    decreases k,
{
    if k > 0 {
        lemma_namespace_members_none(children, unit, debug_str, k - 1);
        assert(!spec_is_namespace_member_tag(children[k - 1]));
    }
}

/// Where every child of a namespace entry is a class, a subprogram, an
/// enumeration or a typedef, the namespace has one member for each child,
/// in order, of the kind its tag says and read from it; children of other
/// kinds give no member.
pub proof fn law_namespace_members(e: DebugInfoEntry, unit: Unit, debug_str: Seq<u8>)
    ensures
        (forall|j: int| 0 <= j < e.children@.len() ==> spec_is_namespace_member_tag(#[trigger] e.children@[j]))
            ==> spec_namespace(e, unit, debug_str).members.len() == e.children@.len() && (forall|
            j: int,
        |
            0 <= j < e.children@.len() ==> spec_member_of_kind(
                spec_namespace(e, unit, debug_str).members[j],
                #[trigger] e.children@[j],
                unit,
                debug_str,
            )),
        (forall|j: int| 0 <= j < e.children@.len() ==> !spec_is_namespace_member_tag(#[trigger] e.children@[j]))
            ==> spec_namespace(e, unit, debug_str).members.len() == 0,
{
    if forall|j: int| 0 <= j < e.children@.len() ==> spec_is_namespace_member_tag(#[trigger] e.children@[j]) {
        lemma_namespace_members_all(e.children@, unit, debug_str, e.children@.len() as int);
    }
    if forall|j: int| 0 <= j < e.children@.len() ==> !spec_is_namespace_member_tag(#[trigger] e.children@[j]) {
        lemma_namespace_members_none(e.children@, unit, debug_str, e.children@.len() as int);
    }
}

} // verus!
