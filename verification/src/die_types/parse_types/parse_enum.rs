use vstd::prelude::*;

use crate::custom_sections::DwarfSections;
use crate::die_types::models::die::{DebugInfoEntry, Unit, DW_TAG_ENUMERATOR};
use crate::die_types::models::type_info::{strings_view, EnumInfo, EnumInfoView};
use crate::die_types::parse_types::parse_class::{
    die_name_or_default, get_die_name, spec_die_name, spec_name_or_default,
};

verus! {

/// The names of the named `DW_TAG_enumerator` entries among the first `k` children.
pub open spec fn spec_enumerators(children: Seq<DebugInfoEntry>, debug_str: Seq<u8>, k: int) -> Seq<
    Seq<char>,
>
    decreases k,
{
    if k <= 0 {
        Seq::empty()
    } else if children[k - 1].tag == DW_TAG_ENUMERATOR && spec_die_name(children[k - 1], debug_str) is Some {
        spec_enumerators(children, debug_str, k - 1).push(
            spec_die_name(children[k - 1], debug_str)->Some_0,
        )
    } else {
        spec_enumerators(children, debug_str, k - 1)
    }
}

/// The enumeration that an entry describes: its name and the names of its
/// enumerator children, in order, leaving out those without a name.
pub open spec fn spec_enum(e: DebugInfoEntry, debug_str: Seq<u8>) -> EnumInfoView {
    EnumInfoView {
        name: spec_name_or_default(spec_die_name(e, debug_str)),
        variants: spec_enumerators(e.children@, debug_str, e.children@.len() as int),
    }
}

/// Reads the enumeration that an entry describes.
pub fn parse_enum(entry: &DebugInfoEntry, dwarf: &DwarfSections, unit: &Unit) -> (res: Result<
    EnumInfo,
    gimli::Error,
>)
    ensures
        res matches Ok(e) && e@ == spec_enum(*entry, dwarf.debug_str@),
{
    let name = die_name_or_default(entry, dwarf);
    let mut variants: Vec<String> = Vec::new();
    let mut i: usize = 0;
    assert(strings_view(variants@) =~= spec_enumerators(entry.children@, dwarf.debug_str@, 0));
    while i < entry.children.len()
        invariant
            i <= entry.children@.len(),
            strings_view(variants@) == spec_enumerators(entry.children@, dwarf.debug_str@, i as int),
        decreases entry.children@.len() - i,
    {
        let child = &entry.children[i];
        if child.tag == DW_TAG_ENUMERATOR {
            match get_die_name(child, dwarf) {
                Ok(Some(variant_name)) => {
                    let ghost before = variants@;
                    variants.push(variant_name);
                    assert(strings_view(variants@) =~= strings_view(before).push(
                        spec_die_name(*child, dwarf.debug_str@)->Some_0,
                    ));
                },
                Ok(None) => {},
                Err(e) => {
                    return Err(e);
                },
            }
        }
        i = i + 1;
    }
    Ok(EnumInfo { name, variants })
}

/// The name of the enumeration read from an entry is the entry's own name,
/// or empty where it has none.
pub proof fn law_enum_name(e: DebugInfoEntry, debug_str: Seq<u8>)
    ensures
        spec_enum(e, debug_str).name == spec_name_or_default(spec_die_name(e, debug_str)),
{
}

/// Where every child of an enumeration entry is a named enumerator, its
/// variants are the children's names, in order.
pub proof fn law_enum_variants(e: DebugInfoEntry, debug_str: Seq<u8>)
    requires
        forall|j: int|
            0 <= j < e.children@.len() ==> #[trigger] e.children@[j].tag == DW_TAG_ENUMERATOR
                && spec_die_name(e.children@[j], debug_str) is Some,
    ensures
        spec_enum(e, debug_str).variants.len() == e.children@.len(),
        forall|j: int|
            0 <= j < e.children@.len() ==> spec_enum(e, debug_str).variants[j] == spec_die_name(
                #[trigger] e.children@[j],
                debug_str,
            )->Some_0,
{
    lemma_enumerators_all_named(e.children@, debug_str, e.children@.len() as int);
}

proof fn lemma_enumerators_all_named(children: Seq<DebugInfoEntry>, debug_str: Seq<u8>, k: int)
    requires
        0 <= k <= children.len(),
        forall|j: int|
            0 <= j < children.len() ==> #[trigger] children[j].tag == DW_TAG_ENUMERATOR
                && spec_die_name(children[j], debug_str) is Some,
    ensures
        spec_enumerators(children, debug_str, k).len() == k,
        forall|j: int|
            0 <= j < k ==> spec_enumerators(children, debug_str, k)[j] == spec_die_name(
                #[trigger] children[j],
                debug_str,
            )->Some_0,
    decreases k,
{
    if k > 0 {
        lemma_enumerators_all_named(children, debug_str, k - 1);
        assert(children[k - 1].tag == DW_TAG_ENUMERATOR);
    }
}

} // verus!
