use vstd::prelude::*;

verus! {

/// What can go wrong while reading a module and its debugging information.
pub enum DebuggerError {
    /// The program was called without a WebAssembly file.
    Usage,
    Io(std::io::Error),
    Gimli(gimli::Error),
    WasmParse(wasmparser::BinaryReaderError),
    /// A section's byte range lies outside the module.
    RangeOutOfBounds,
    /// A function body has no entry in the function section.
    MissingFunctionType,
}

} // verus!
