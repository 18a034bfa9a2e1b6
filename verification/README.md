# wasm_debugger

A verified library for reading WebAssembly modules and the DWARF debugging
information they carry, with a small command-line program around it.

The library (`src/`) is written in Verus: its functions state their
behaviour in `requires`/`ensures` clauses over mathematical models
(sequences, maps, views of each type), and Verus proves the code against
them.

- `header` — the eight-byte module header and its version number.
- `wasm_sections` — the import section grammar (LEB128 numbers, names, limits,
  table, memory and global types), the import description types, and the
  debugging entries made for globals.
- `wasm_types::heap_type` — matching of heap types through a context of
  concrete type definitions.
- `custom_sections`, `wasm_parser`, `wasm_reader` — splitting a module into
  payloads with `wasmparser`, collecting the DWARF sections of a custom section,
  walking the units with `gimli`, and reading functions and variables out of
  debugging information entries.
- `die_types` — a model of debugging information entries and the readers of
  classes, members, enumerations, constants, typedefs and namespaces.
- `debug_sections` — DWARF 4 range and location lists, read with `gimli`.
- `source_maps`, `state_management`, `debug_information_storage` — the source
  map of a function body, the debugger's shared state, and the symbol table.

Calls into `wasmparser`, `gimli` and `std` go through small trusted functions
marked `#[verifier::external_body]`, each documented with what its contract
claims. Where the outside crate's result is too large to write out (the
payloads of a module, the entries a section reader gives, whether gimli
builds a unit), the contract gives it a name and states the short facts
that the source shows about it. A few wrappers, such as those that read a
function body or tell operators apart, promise nothing about their result,
and the contracts built on them say only what holds whatever comes back.

`app/` holds the program: argument handling, file and process I/O, the global
state behind a lock, printing, and the error type with `thiserror`'s derive.
