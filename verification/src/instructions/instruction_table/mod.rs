pub mod instruction_table;
