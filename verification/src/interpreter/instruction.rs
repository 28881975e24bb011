pub mod alphabet_instruction_table;
pub mod instruction_alphabet;
pub mod instruction_table;
pub mod insts;

pub use alphabet_instruction_table::{AlphabetInstructionTable, AlphabetInstructionTableEntry};
pub use instruction_alphabet::InstructionAlphabet;
pub use instruction_table::InstructionTable;
