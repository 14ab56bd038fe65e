pub mod instruction;
pub mod instruction_functions;
pub mod instruction_table;
pub mod laws;
