pub mod global_section;
pub mod import_section;

use vstd::prelude::*;

verus! {

/// The types a function takes and gives back, written as WebAssembly type names.
pub struct FunctionSignature {
    pub parameter_types: Vec<String>,
    /// `None` where the function returns no value.
    pub return_type: Option<String>,
}

/// A function that a module imports.
pub struct FunctionImportInfo {
    /// The module the function is imported from.
    pub module_name: String,
    /// The name of the imported function.
    pub import_name: String,
    /// The index of the function's type in the type section.
    pub type_idx: u32,
    pub signature: FunctionSignature,
    pub documentation: String,
}

/// The type of a global variable: its value type's name (such as `i32`) and
/// whether it can be written.
pub struct GlobalType {
    pub value_type: String,
    pub mutable: bool,
}

/// The mathematical value of a [`GlobalType`].
#[verifier::ext_equal]
pub struct GlobalTypeView {
    pub value_type: Seq<char>,
    pub mutable: bool,
}

impl View for GlobalType {
    type V = GlobalTypeView;

    open spec fn view(&self) -> GlobalTypeView {
        GlobalTypeView { value_type: self.value_type@, mutable: self.mutable }
    }
}

/// A global variable that a module imports.
pub struct GlobalImportInfo {
    pub module_name: String,
    pub import_name: String,
    pub global_type: GlobalType,
}

/// The size of a linear memory in WebAssembly pages: its initial size and,
/// where there is one, its maximum.
#[derive(Debug, Clone, Copy, PartialEq, Eq, Structural)]
pub struct MemoryType {
    pub initial: u32,
    pub maximum: Option<u32>,
}

/// A linear memory that a module imports.
pub struct MemoryImportInfo {
    pub module_name: String,
    pub import_name: String,
    pub memory_type: MemoryType,
}

/// The element type of a table (such as `funcref`) and its size in elements.
pub struct TableType {
    pub element_type: String,
    pub initial: u32,
    pub maximum: Option<u32>,
}

/// A table that a module imports.
pub struct TableImportInfo {
    pub module_name: String,
    pub import_name: String,
    pub table_type: TableType,
}

} // verus!
