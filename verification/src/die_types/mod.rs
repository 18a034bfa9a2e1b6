pub mod models;
pub mod parse_types;
