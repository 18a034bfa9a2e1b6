pub mod debug_loc;
pub mod debug_ranges;
