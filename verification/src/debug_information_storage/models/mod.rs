pub mod symbol_table;
