pub mod text;
pub mod header;
pub mod debug_data;
pub mod debug_sections;
pub mod custom_sections;
pub mod error;
pub mod outside_types;
pub mod dwarf_reader;
pub mod die_types;
pub mod wasm_parser;
pub mod source_maps;
pub mod wasm_reader;
pub mod wasm_sections;
pub mod wasm_types;
pub mod state_management;
pub mod debug_information_storage;
