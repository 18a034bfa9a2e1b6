pub mod parse_class;
pub mod parse_constant;
pub mod parse_enum;
pub mod parse_namespace;
pub mod parse_typedef;
