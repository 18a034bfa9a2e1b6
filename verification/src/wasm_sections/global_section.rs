use vstd::prelude::*;

verus! {

/// The value type of a global.
#[derive(Debug, Clone, Copy, PartialEq, Eq, Structural)]
pub enum ValueType {
    I32,
    I64,
    F32,
    F64,
}

/// Whether a global can be written.
#[derive(Debug, Clone, Copy, PartialEq, Eq, Structural)]
pub enum Mutability {
    Const,
    Var,
}

/// A global together with the source location that debugging information
/// gives for it.
pub struct GlobalType {
    pub name: String,
    pub value_type: ValueType,
    pub mutability: Mutability,
    pub source_file: String,
    pub line: u32,
}

/// The debugging entry made for a global: its name, value type and source location.
pub struct GlobalEntry {
    pub name: String,
    pub value_type: ValueType,
    pub source_file: String,
    pub line: u32,
}

/// The mathematical value of a [`GlobalEntry`].
pub struct GlobalEntryView {
    pub name: Seq<char>,
    pub value_type: ValueType,
    pub source_file: Seq<char>,
    pub line: u32,
}

impl View for GlobalEntry {
    type V = GlobalEntryView;

    open spec fn view(&self) -> GlobalEntryView {
        GlobalEntryView {
            name: self.name@,
            value_type: self.value_type,
            source_file: self.source_file@,
            line: self.line,
        }
    }
}

/// The debugging entries made for the globals of a module, in order.
pub struct DwarfUnit {
    entries: Vec<GlobalEntry>,
}

impl DwarfUnit {
    /// The entries made so far.
    pub closed spec fn spec_entries(&self) -> Seq<GlobalEntryView> {
        self.entries@.map_values(|e: GlobalEntry| e@)
    }

    /// A unit with no entries.
    pub fn new() -> (u: Self)
        ensures
            u.spec_entries() == Seq::<GlobalEntryView>::empty(),
    {
        let u = DwarfUnit { entries: Vec::new() };
        assert(u.spec_entries() =~= Seq::<GlobalEntryView>::empty());
        u
    }
}

/// Makes the debugging entry for one global: its name, value type and
/// source location.
pub fn process_global_type(global_type: GlobalType, dwarf_unit: &mut DwarfUnit)
    ensures
        final(dwarf_unit).spec_entries() == old(dwarf_unit).spec_entries().push(
            GlobalEntryView {
                name: global_type.name@,
                value_type: global_type.value_type,
                source_file: global_type.source_file@,
                line: global_type.line,
            },
        ),
{
    let ghost before = dwarf_unit.entries@;
    let die = GlobalEntry {
        name: global_type.name,
        value_type: global_type.value_type,
        source_file: global_type.source_file,
        line: global_type.line,
    };
    dwarf_unit.entries.push(die);
    assert(dwarf_unit.entries@.map_values(|e: GlobalEntry| e@) =~= before.map_values(
        |e: GlobalEntry| e@,
    ).push(dwarf_unit.entries@.last()@));
}

/// Takes the initializer expression of a global; it adds nothing to the unit.
pub fn handle_initializer_expression(initializer: Vec<u8>, dwarf_unit: &mut DwarfUnit)
    ensures
        final(dwarf_unit).spec_entries() == old(dwarf_unit).spec_entries(),
{
}

/// Ends the building of the unit; nothing more is written.
pub fn finalize_dwarf(dwarf_info: DwarfUnit) {
}

} // verus!
