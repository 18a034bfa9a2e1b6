pub mod heap_type;
