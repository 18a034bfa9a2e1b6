use std::collections::HashMap;
use vstd::prelude::*;

verus! {

broadcast use vstd::std_specs::hash::group_hash_axioms;

/// The type of a WebAssembly value as `wasmparser` reads it.
#[verifier::external_type_specification]
#[verifier::external_body]
pub struct ExWasmType(wasmparser::Type);

/// The byte range of a function's code within the code section.
#[derive(Debug, Clone, Copy, PartialEq, Eq, Structural)]
pub struct FunctionBytecodeRange {
    pub start: usize,
    pub end: usize,
}

/// The parameter and result types of a function.
pub struct FunctionTypeInfo {
    pub params: Vec<wasmparser::Type>,
    pub returns: Vec<wasmparser::Type>,
}

/// What an instruction of a function body does, for mapping it back to source.
pub enum SourceMapEntry {
    FunctionCall {
        function_index: u32,
        /// Line number in the source code.
        source_line: u32,
    },
    VariableAccess {
        local_index: u32,
        /// Line number in the source code.
        source_line: u32,
    },
    ArithmeticOperation { operation: &'static str, source_line: i32 },
    Constant { value: String, source_line: i32 },
    ControlFlow { operation: &'static str, source_line: i32 },
    MemoryOperation { operation: &'static str, source_line: i32 },
    ConversionOperation { operation: &'static str, source_line: i32 },
    ComparisonOperation { operation: &'static str, source_line: i32 },
    FunctionTypeInfo { type_info: Option<FunctionTypeInfo> },
}

/// The instructions of a function body that the source map tells apart.
#[derive(Debug, Clone, Copy, PartialEq, Eq, Structural)]
pub enum OperatorKind {
    Call { function_index: u32 },
    LocalGet { local_index: u32 },
    I32Add,
    I64Add,
    If,
    Loop,
    End,
    Br { relative_depth: u32 },
    BrIf { relative_depth: u32 },
    F32Add,
    F64Add,
    MemorySize,
    MemoryGrow,
    I32WrapI64,
    I64ExtendI32S,
    I64ExtendI32U,
    I32Eq,
    I64Eq,
    I32Ne,
    I64Ne,
    /// Any other instruction.
    Other,
}

/// The entry that an instruction adds to the source map, if any; every
/// source line is 0.
pub open spec fn spec_source_map_entry_for(op: OperatorKind) -> Option<SourceMapEntry> {
    match op {
        OperatorKind::Call { function_index } => Some(
            SourceMapEntry::FunctionCall { function_index, source_line: 0 },
        ),
        OperatorKind::LocalGet { local_index } => Some(
            SourceMapEntry::VariableAccess { local_index, source_line: 0 },
        ),
        OperatorKind::I32Add | OperatorKind::I64Add => Some(
            SourceMapEntry::ArithmeticOperation { operation: "Add", source_line: 0 },
        ),
        OperatorKind::If => Some(SourceMapEntry::ControlFlow { operation: "If", source_line: 0 }),
        OperatorKind::Loop => Some(SourceMapEntry::ControlFlow { operation: "Loop", source_line: 0 }),
        OperatorKind::End => Some(SourceMapEntry::ControlFlow { operation: "End", source_line: 0 }),
        OperatorKind::F32Add | OperatorKind::F64Add => Some(
            SourceMapEntry::ArithmeticOperation { operation: "Float Add", source_line: 0 },
        ),
        OperatorKind::MemorySize => Some(
            SourceMapEntry::MemoryOperation { operation: "Memory Size", source_line: 0 },
        ),
        OperatorKind::MemoryGrow => Some(
            SourceMapEntry::MemoryOperation { operation: "Memory Grow", source_line: 0 },
        ),
        OperatorKind::I32WrapI64 => Some(
            SourceMapEntry::ConversionOperation { operation: "I32 Wrap I64", source_line: 0 },
        ),
        OperatorKind::I64ExtendI32S | OperatorKind::I64ExtendI32U => Some(
            SourceMapEntry::ConversionOperation { operation: "I64 Extend I32", source_line: 0 },
        ),
        OperatorKind::I32Eq | OperatorKind::I64Eq => Some(
            SourceMapEntry::ComparisonOperation { operation: "Equal", source_line: 0 },
        ),
        OperatorKind::I32Ne | OperatorKind::I64Ne => Some(
            SourceMapEntry::ComparisonOperation { operation: "Not Equal", source_line: 0 },
        ),
        _ => None,
    }
}

/// The entry that an instruction adds to the source map, if any.
pub fn source_map_entry_for(op: &OperatorKind) -> (r: Option<SourceMapEntry>)
    ensures
        r == spec_source_map_entry_for(*op),
{
    match op {
        OperatorKind::Call { function_index } => Some(
            SourceMapEntry::FunctionCall { function_index: *function_index, source_line: 0 },
        ),
        OperatorKind::LocalGet { local_index } => Some(
            SourceMapEntry::VariableAccess { local_index: *local_index, source_line: 0 },
        ),
        OperatorKind::I32Add | OperatorKind::I64Add => Some(
            SourceMapEntry::ArithmeticOperation { operation: "Add", source_line: 0 },
        ),
        OperatorKind::If => Some(SourceMapEntry::ControlFlow { operation: "If", source_line: 0 }),
        OperatorKind::Loop => Some(SourceMapEntry::ControlFlow { operation: "Loop", source_line: 0 }),
        OperatorKind::End => Some(SourceMapEntry::ControlFlow { operation: "End", source_line: 0 }),
        OperatorKind::F32Add | OperatorKind::F64Add => Some(
            SourceMapEntry::ArithmeticOperation { operation: "Float Add", source_line: 0 },
        ),
        OperatorKind::MemorySize => Some(
            SourceMapEntry::MemoryOperation { operation: "Memory Size", source_line: 0 },
        ),
        OperatorKind::MemoryGrow => Some(
            SourceMapEntry::MemoryOperation { operation: "Memory Grow", source_line: 0 },
        ),
        OperatorKind::I32WrapI64 => Some(
            SourceMapEntry::ConversionOperation { operation: "I32 Wrap I64", source_line: 0 },
        ),
        OperatorKind::I64ExtendI32S | OperatorKind::I64ExtendI32U => Some(
            SourceMapEntry::ConversionOperation { operation: "I64 Extend I32", source_line: 0 },
        ),
        OperatorKind::I32Eq | OperatorKind::I64Eq => Some(
            SourceMapEntry::ComparisonOperation { operation: "Equal", source_line: 0 },
        ),
        OperatorKind::I32Ne | OperatorKind::I64Ne => Some(
            SourceMapEntry::ComparisonOperation { operation: "Not Equal", source_line: 0 },
        ),
        _ => None,
    }
}

/// The entries recorded for the instructions of a function body, and the
/// names and code ranges of functions by index.
pub struct SourceMap {
    entries: Vec<SourceMapEntry>,
    function_names: HashMap<u32, String>,
    function_bytecode_ranges: HashMap<u32, FunctionBytecodeRange>,
}

impl SourceMap {
    /// The recorded entries, in order.
    pub closed spec fn spec_entries(&self) -> Seq<SourceMapEntry> {
        self.entries@
    }

    /// The recorded function names.
    pub closed spec fn spec_function_names(&self) -> Map<u32, String> {
        self.function_names@
    }

    /// The recorded function code ranges.
    pub closed spec fn spec_function_ranges(&self) -> Map<u32, FunctionBytecodeRange> {
        self.function_bytecode_ranges@
    }

    /// A source map with nothing recorded.
    pub fn new() -> (s: Self)
        ensures
            s.spec_entries() == Seq::<SourceMapEntry>::empty(),
            s.spec_function_names() == Map::<u32, String>::empty(),
            s.spec_function_ranges() == Map::<u32, FunctionBytecodeRange>::empty(),
    {
        SourceMap {
            entries: Vec::new(),
            function_names: HashMap::new(),
            function_bytecode_ranges: HashMap::new(),
        }
    }

    /// Appends `entry`; the offset is not kept.
    pub fn add_entry(&mut self, offset: usize, entry: SourceMapEntry)
        ensures
            final(self).spec_entries() == old(self).spec_entries().push(entry),
            final(self).spec_function_names() == old(self).spec_function_names(),
            final(self).spec_function_ranges() == old(self).spec_function_ranges(),
    {
        self.entries.push(entry);
    }

    /// Records the name of function `index`, replacing an earlier one.
    pub fn add_function_name(&mut self, index: u32, name: String)
        ensures
            final(self).spec_entries() == old(self).spec_entries(),
            final(self).spec_function_names() == old(self).spec_function_names().insert(index, name),
            final(self).spec_function_ranges() == old(self).spec_function_ranges(),
    {
        self.function_names.insert(index, name);
    }

    /// Records the code range of function `index`, replacing an earlier one.
    pub fn add_function_range(&mut self, index: u32, range: FunctionBytecodeRange)
        ensures
            final(self).spec_entries() == old(self).spec_entries(),
            final(self).spec_function_names() == old(self).spec_function_names(),
            final(self).spec_function_ranges() == old(self).spec_function_ranges().insert(
                index,
                range,
            ),
    {
        self.function_bytecode_ranges.insert(index, range);
    }

    /// Records the entry that instruction `op` at `offset` adds, if any.
    pub fn record_operator(&mut self, offset: usize, op: &OperatorKind)
        ensures
            final(self).spec_entries() == match spec_source_map_entry_for(*op) {
                Some(e) => old(self).spec_entries().push(e),
                None => old(self).spec_entries(),
            },
            final(self).spec_function_names() == old(self).spec_function_names(),
            final(self).spec_function_ranges() == old(self).spec_function_ranges(),
    {
        if let Some(entry) = source_map_entry_for(op) {
            self.add_entry(offset, entry);
        }
    }
}

/// Every instruction that the source map tells apart, except the two
/// branches, adds an entry: a call keeps its function index and a local
/// read its local index, with source line 0; the 32- and 64-bit forms of
/// an addition, a float addition, an extension, an equality and an
/// inequality add the same entry.
pub proof fn law_source_map_entries(op: OperatorKind)
    ensures
        spec_source_map_entry_for(op) is Some <==> !(op is Br || op is BrIf || op is Other),
        op matches OperatorKind::Call { function_index } ==> spec_source_map_entry_for(op) == Some(
            SourceMapEntry::FunctionCall { function_index, source_line: 0 },
        ),
        op matches OperatorKind::LocalGet { local_index } ==> spec_source_map_entry_for(op) == Some(
            SourceMapEntry::VariableAccess { local_index, source_line: 0 },
        ),
        spec_source_map_entry_for(OperatorKind::I32Add) == spec_source_map_entry_for(OperatorKind::I64Add),
        spec_source_map_entry_for(OperatorKind::F32Add) == spec_source_map_entry_for(OperatorKind::F64Add),
        spec_source_map_entry_for(OperatorKind::I64ExtendI32S) == spec_source_map_entry_for(
            OperatorKind::I64ExtendI32U,
        ),
        spec_source_map_entry_for(OperatorKind::I32Eq) == spec_source_map_entry_for(OperatorKind::I64Eq),
        spec_source_map_entry_for(OperatorKind::I32Ne) == spec_source_map_entry_for(OperatorKind::I64Ne),
{
}

} // verus!
