pub mod die;
pub mod member_variable_info;
pub mod type_info;
