use vstd::prelude::*;
use vstd::slice::slice_to_vec;

use crate::text::str_eq;

verus! {

/// The contents of the DWARF sections that debugging reads, little-endian.
/// A section that is absent is empty; the location and range lists are
/// always empty.
pub struct DwarfSections {
    pub debug_abbrev: Vec<u8>,
    pub debug_addr: Vec<u8>,
    pub debug_aranges: Vec<u8>,
    pub debug_info: Vec<u8>,
    pub debug_line: Vec<u8>,
    pub debug_line_str: Vec<u8>,
    pub debug_str: Vec<u8>,
    pub debug_str_offsets: Vec<u8>,
    pub debug_types: Vec<u8>,
}

/// The mathematical value of [`DwarfSections`].
pub struct DwarfSectionsView {
    pub debug_abbrev: Seq<u8>,
    pub debug_addr: Seq<u8>,
    pub debug_aranges: Seq<u8>,
    pub debug_info: Seq<u8>,
    pub debug_line: Seq<u8>,
    pub debug_line_str: Seq<u8>,
    pub debug_str: Seq<u8>,
    pub debug_str_offsets: Seq<u8>,
    pub debug_types: Seq<u8>,
}

impl View for DwarfSections {
    type V = DwarfSectionsView;

    open spec fn view(&self) -> DwarfSectionsView {
        DwarfSectionsView {
            debug_abbrev: self.debug_abbrev@,
            debug_addr: self.debug_addr@,
            debug_aranges: self.debug_aranges@,
            debug_info: self.debug_info@,
            debug_line: self.debug_line@,
            debug_line_str: self.debug_line_str@,
            debug_str: self.debug_str@,
            debug_str_offsets: self.debug_str_offsets@,
            debug_types: self.debug_types@,
        }
    }
}

/// Every section empty.
pub open spec fn spec_empty_sections() -> DwarfSectionsView {
    DwarfSectionsView {
        debug_abbrev: Seq::empty(),
        debug_addr: Seq::empty(),
        debug_aranges: Seq::empty(),
        debug_info: Seq::empty(),
        debug_line: Seq::empty(),
        debug_line_str: Seq::empty(),
        debug_str: Seq::empty(),
        debug_str_offsets: Seq::empty(),
        debug_types: Seq::empty(),
    }
}

/// The sections made from one custom section: the section that `name`
/// names holds `data`, every other section is empty. `.debug_loc` and
/// names of no section read here leave every section empty.
pub open spec fn spec_parse_custom_section(name: Seq<char>, data: Seq<u8>) -> DwarfSectionsView {
    let e = spec_empty_sections();
    if name == ".debug_info"@ {
        DwarfSectionsView { debug_info: data, ..e }
    } else if name == ".debug_abbrev"@ {
        DwarfSectionsView { debug_abbrev: data, ..e }
    } else if name == ".debug_line"@ {
        DwarfSectionsView { debug_line: data, ..e }
    } else if name == ".debug_line_str"@ {
        DwarfSectionsView { debug_line_str: data, ..e }
    } else if name == ".debug_aranges"@ {
        DwarfSectionsView { debug_aranges: data, ..e }
    } else if name == ".debug_str"@ {
        DwarfSectionsView { debug_str: data, ..e }
    } else if name == ".debug_str_offsets"@ {
        DwarfSectionsView { debug_str_offsets: data, ..e }
    } else if name == ".debug_types"@ {
        DwarfSectionsView { debug_types: data, ..e }
    } else {
        e
    }
}

impl DwarfSections {
    /// Every section empty.
    pub fn empty() -> (d: DwarfSections)
        ensures
            d@ == spec_empty_sections(),
    {
        DwarfSections {
            debug_abbrev: Vec::new(),
            debug_addr: Vec::new(),
            debug_aranges: Vec::new(),
            debug_info: Vec::new(),
            debug_line: Vec::new(),
            debug_line_str: Vec::new(),
            debug_str: Vec::new(),
            debug_str_offsets: Vec::new(),
            debug_types: Vec::new(),
        }
    }
}

/// Builds the DWARF sections from the custom section `name` with contents
/// `data`. There is always a result.
pub fn parse_custom_section(name: &str, data: &[u8]) -> (res: Option<DwarfSections>)
    ensures
        res matches Some(d) && d@ == spec_parse_custom_section(name@, data@),
{
    let mut d = DwarfSections::empty();
    if str_eq(name, ".debug_info") {
        d.debug_info = slice_to_vec(data);
    } else if str_eq(name, ".debug_abbrev") {
        d.debug_abbrev = slice_to_vec(data);
    } else if str_eq(name, ".debug_line") {
        d.debug_line = slice_to_vec(data);
    } else if str_eq(name, ".debug_line_str") {
        d.debug_line_str = slice_to_vec(data);
    } else if str_eq(name, ".debug_aranges") {
        d.debug_aranges = slice_to_vec(data);
    } else if str_eq(name, ".debug_str") {
        d.debug_str = slice_to_vec(data);
    } else if str_eq(name, ".debug_str_offsets") {
        d.debug_str_offsets = slice_to_vec(data);
    } else if str_eq(name, ".debug_types") {
        d.debug_types = slice_to_vec(data);
    }
    Some(d)
}

/// A custom section named after one of the DWARF sections read here holds
/// that section: the sections made from it have its contents in that
/// section's slot and every other slot empty. `.debug_loc` gives every
/// section empty.
pub proof fn law_custom_section_fills_its_slot(data: Seq<u8>)
    ensures
        spec_parse_custom_section(".debug_info"@, data).debug_info == data,
        spec_parse_custom_section(".debug_info"@, data) == (DwarfSectionsView { debug_info: data, ..spec_empty_sections() }),
        spec_parse_custom_section(".debug_abbrev"@, data).debug_abbrev == data,
        spec_parse_custom_section(".debug_abbrev"@, data) == (DwarfSectionsView { debug_abbrev: data, ..spec_empty_sections() }),
        spec_parse_custom_section(".debug_line"@, data).debug_line == data,
        spec_parse_custom_section(".debug_line"@, data) == (DwarfSectionsView { debug_line: data, ..spec_empty_sections() }),
        spec_parse_custom_section(".debug_line_str"@, data).debug_line_str == data,
        spec_parse_custom_section(".debug_line_str"@, data) == (DwarfSectionsView { debug_line_str: data, ..spec_empty_sections() }),
        spec_parse_custom_section(".debug_aranges"@, data).debug_aranges == data,
        spec_parse_custom_section(".debug_aranges"@, data) == (DwarfSectionsView { debug_aranges: data, ..spec_empty_sections() }),
        spec_parse_custom_section(".debug_str"@, data).debug_str == data,
        spec_parse_custom_section(".debug_str"@, data) == (DwarfSectionsView { debug_str: data, ..spec_empty_sections() }),
        spec_parse_custom_section(".debug_str_offsets"@, data).debug_str_offsets == data,
        spec_parse_custom_section(".debug_str_offsets"@, data) == (DwarfSectionsView { debug_str_offsets: data, ..spec_empty_sections() }),
        spec_parse_custom_section(".debug_types"@, data).debug_types == data,
        spec_parse_custom_section(".debug_types"@, data) == (DwarfSectionsView { debug_types: data, ..spec_empty_sections() }),
        spec_parse_custom_section(".debug_loc"@, data) == spec_empty_sections(),
{
    reveal_strlit(".debug_info");
    reveal_strlit(".debug_abbrev");
    reveal_strlit(".debug_line");
    reveal_strlit(".debug_line_str");
    reveal_strlit(".debug_aranges");
    reveal_strlit(".debug_str");
    reveal_strlit(".debug_str_offsets");
    reveal_strlit(".debug_types");
    reveal_strlit(".debug_loc");
    assert(".debug_info"@ != ".debug_line"@) by { assert(".debug_info"@[7] != ".debug_line"@[7]); }
    assert(".debug_info"@ != ".debug_line_str"@) by { assert(".debug_info"@.len() != ".debug_line_str"@.len()); }
    assert(".debug_info"@ != ".debug_str"@) by { assert(".debug_info"@.len() != ".debug_str"@.len()); }
    assert(".debug_info"@ != ".debug_str_offsets"@) by { assert(".debug_info"@.len() != ".debug_str_offsets"@.len()); }
    assert(".debug_info"@ != ".debug_types"@) by { assert(".debug_info"@.len() != ".debug_types"@.len()); }
    assert(".debug_info"@ != ".debug_loc"@) by { assert(".debug_info"@.len() != ".debug_loc"@.len()); }
    assert(".debug_abbrev"@ != ".debug_info"@) by { assert(".debug_abbrev"@.len() != ".debug_info"@.len()); }
    assert(".debug_abbrev"@ != ".debug_line"@) by { assert(".debug_abbrev"@.len() != ".debug_line"@.len()); }
    assert(".debug_abbrev"@ != ".debug_line_str"@) by { assert(".debug_abbrev"@.len() != ".debug_line_str"@.len()); }
    assert(".debug_abbrev"@ != ".debug_aranges"@) by { assert(".debug_abbrev"@.len() != ".debug_aranges"@.len()); }
    assert(".debug_abbrev"@ != ".debug_str"@) by { assert(".debug_abbrev"@.len() != ".debug_str"@.len()); }
    assert(".debug_abbrev"@ != ".debug_str_offsets"@) by { assert(".debug_abbrev"@.len() != ".debug_str_offsets"@.len()); }
    assert(".debug_abbrev"@ != ".debug_types"@) by { assert(".debug_abbrev"@.len() != ".debug_types"@.len()); }
    assert(".debug_abbrev"@ != ".debug_loc"@) by { assert(".debug_abbrev"@.len() != ".debug_loc"@.len()); }
    assert(".debug_line"@ != ".debug_line_str"@) by { assert(".debug_line"@.len() != ".debug_line_str"@.len()); }
    assert(".debug_line"@ != ".debug_str"@) by { assert(".debug_line"@.len() != ".debug_str"@.len()); }
    assert(".debug_line"@ != ".debug_str_offsets"@) by { assert(".debug_line"@.len() != ".debug_str_offsets"@.len()); }
    assert(".debug_line"@ != ".debug_types"@) by { assert(".debug_line"@.len() != ".debug_types"@.len()); }
    assert(".debug_line"@ != ".debug_loc"@) by { assert(".debug_line"@.len() != ".debug_loc"@.len()); }
    assert(".debug_line_str"@ != ".debug_str"@) by { assert(".debug_line_str"@.len() != ".debug_str"@.len()); }
    assert(".debug_line_str"@ != ".debug_str_offsets"@) by { assert(".debug_line_str"@.len() != ".debug_str_offsets"@.len()); }
    assert(".debug_line_str"@ != ".debug_types"@) by { assert(".debug_line_str"@.len() != ".debug_types"@.len()); }
    assert(".debug_line_str"@ != ".debug_loc"@) by { assert(".debug_line_str"@.len() != ".debug_loc"@.len()); }
    assert(".debug_aranges"@ != ".debug_info"@) by { assert(".debug_aranges"@.len() != ".debug_info"@.len()); }
    assert(".debug_aranges"@ != ".debug_line"@) by { assert(".debug_aranges"@.len() != ".debug_line"@.len()); }
    assert(".debug_aranges"@ != ".debug_line_str"@) by { assert(".debug_aranges"@.len() != ".debug_line_str"@.len()); }
    assert(".debug_aranges"@ != ".debug_str"@) by { assert(".debug_aranges"@.len() != ".debug_str"@.len()); }
    assert(".debug_aranges"@ != ".debug_str_offsets"@) by { assert(".debug_aranges"@.len() != ".debug_str_offsets"@.len()); }
    assert(".debug_aranges"@ != ".debug_types"@) by { assert(".debug_aranges"@.len() != ".debug_types"@.len()); }
    assert(".debug_aranges"@ != ".debug_loc"@) by { assert(".debug_aranges"@.len() != ".debug_loc"@.len()); }
    assert(".debug_str"@ != ".debug_str_offsets"@) by { assert(".debug_str"@.len() != ".debug_str_offsets"@.len()); }
    assert(".debug_str"@ != ".debug_types"@) by { assert(".debug_str"@.len() != ".debug_types"@.len()); }
    assert(".debug_str_offsets"@ != ".debug_types"@) by { assert(".debug_str_offsets"@.len() != ".debug_types"@.len()); }
    assert(".debug_loc"@ != ".debug_str"@) by { assert(".debug_loc"@[7] != ".debug_str"@[7]); }
    assert(".debug_loc"@ != ".debug_str_offsets"@) by { assert(".debug_loc"@.len() != ".debug_str_offsets"@.len()); }
    assert(".debug_loc"@ != ".debug_types"@) by { assert(".debug_loc"@.len() != ".debug_types"@.len()); }
}

/// The sections made from no custom section are all empty.
pub proof fn law_empty_sections_are_empty()
    ensures
        spec_empty_sections().debug_abbrev.len() == 0,
        spec_empty_sections().debug_addr.len() == 0,
        spec_empty_sections().debug_aranges.len() == 0,
        spec_empty_sections().debug_info.len() == 0,
        spec_empty_sections().debug_line.len() == 0,
        spec_empty_sections().debug_line_str.len() == 0,
        spec_empty_sections().debug_str.len() == 0,
        spec_empty_sections().debug_str_offsets.len() == 0,
        spec_empty_sections().debug_types.len() == 0,
{
}

} // verus!
