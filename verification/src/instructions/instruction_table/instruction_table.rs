//! The opcode table: for each of the 256 opcodes its mnemonic, its
//! addressing mode, the operation it runs and its base cycles.

use crate::instructions::instruction::{AddressingMode, Instruction, Operation};
use vstd::prelude::*;

verus! {

/// Mnemonics by opcode. `???` marks an opcode outside the documented set.
pub const INSTRUCTION_NAMES: [&'static str; 256] = [
    "BRK", "ORA", "???", "SLO", "NOP", "ORA", "ASL", "???",
    "PHP", "ORA", "ASL", "???", "NOP", "ORA", "ASL", "???",
    "BPL", "ORA", "???", "???", "NOP", "ORA", "ASL", "???",
    "CLC", "ORA", "NOP", "???", "NOP", "ORA", "ASL", "???",
    "JSR", "AND", "???", "???", "BIT", "AND", "ROL", "???",
    "PLP", "AND", "ROL", "???", "BIT", "AND", "ROL", "???",
    "BMI", "AND", "???", "???", "NOP", "AND", "ROL", "???",
    "SEC", "AND", "NOP", "???", "NOP", "AND", "ROL", "???",
    "RTI", "EOR", "???", "???", "NOP", "EOR", "LSR", "???",
    "PHA", "EOR", "LSR", "???", "JMP", "EOR", "LSR", "???",
    "BVC", "EOR", "???", "???", "NOP", "EOR", "LSR", "???",
    "CLI", "EOR", "NOP", "???", "NOP", "EOR", "LSR", "???",
    "RTS", "ADC", "???", "???", "NOP", "ADC", "ROR", "???",
    "PLA", "ADC", "ROR", "???", "JMP", "ADC", "ROR", "???",
    "BVS", "ADC", "???", "???", "NOP", "ADC", "ROR", "???",
    "SEI", "ADC", "NOP", "???", "NOP", "ADC", "ROR", "???",
    "NOP", "STA", "NOP", "???", "STY", "STA", "STX", "???",
    "DEY", "NOP", "TXA", "???", "STY", "STA", "STX", "???",
    "BCC", "STA", "???", "???", "STY", "STA", "STX", "???",
    "TYA", "STA", "TXS", "???", "???", "STA", "???", "???",
    "LDY", "LDA", "LDX", "???", "LDY", "LDA", "LDX", "???",
    "TAY", "LDA", "TAX", "???", "LDY", "LDA", "LDX", "???",
    "BCS", "LDA", "???", "???", "LDY", "LDA", "LDX", "???",
    "CLV", "LDA", "TSX", "???", "LDY", "LDA", "LDX", "???",
    "CPY", "CMP", "NOP", "???", "CPY", "CMP", "DEC", "???",
    "INY", "CMP", "DEX", "???", "CPY", "CMP", "DEC", "???",
    "BNE", "CMP", "???", "???", "NOP", "CMP", "DEC", "???",
    "CLD", "CMP", "NOP", "???", "NOP", "CMP", "DEC", "???",
    "CPX", "SBC", "NOP", "???", "CPX", "SBC", "INC", "???",
    "INX", "SBC", "NOP", "SBC", "CPX", "SBC", "INC", "???",
    "BEQ", "SBC", "???", "???", "NOP", "SBC", "INC", "???",
    "SED", "SBC", "NOP", "???", "NOP", "SBC", "INC", "???",
];

/// Addressing modes by opcode.
pub const INSTRUCTION_MODES: [AddressingMode; 256] = [
    AddressingMode::IMP, AddressingMode::IZX, AddressingMode::IMP, AddressingMode::IZX, AddressingMode::ZP0, AddressingMode::ZP0, AddressingMode::ZP0, AddressingMode::IMP,
    AddressingMode::IMP, AddressingMode::IMM, AddressingMode::IMP, AddressingMode::IMP, AddressingMode::ABS, AddressingMode::ABS, AddressingMode::ABS, AddressingMode::IMP,
    AddressingMode::REL, AddressingMode::IZY, AddressingMode::IMP, AddressingMode::IMP, AddressingMode::ZPX, AddressingMode::ZPX, AddressingMode::ZPX, AddressingMode::IMP,
    AddressingMode::IMP, AddressingMode::ABY, AddressingMode::IMP, AddressingMode::IMP, AddressingMode::ABX, AddressingMode::ABX, AddressingMode::ABX, AddressingMode::IMP,
    AddressingMode::ABS, AddressingMode::IZX, AddressingMode::IMP, AddressingMode::IMP, AddressingMode::ZP0, AddressingMode::ZP0, AddressingMode::ZP0, AddressingMode::IMP,
    AddressingMode::IMP, AddressingMode::IMM, AddressingMode::IMP, AddressingMode::IMP, AddressingMode::ABS, AddressingMode::ABS, AddressingMode::ABS, AddressingMode::IMP,
    AddressingMode::REL, AddressingMode::IZY, AddressingMode::IMP, AddressingMode::IMP, AddressingMode::ZPX, AddressingMode::ZPX, AddressingMode::ZPX, AddressingMode::IMP,
    AddressingMode::IMP, AddressingMode::ABY, AddressingMode::IMP, AddressingMode::IMP, AddressingMode::ABX, AddressingMode::ABX, AddressingMode::ABX, AddressingMode::IMP,
    AddressingMode::IMP, AddressingMode::IZX, AddressingMode::IMP, AddressingMode::IMP, AddressingMode::ZP0, AddressingMode::ZP0, AddressingMode::ZP0, AddressingMode::IMP,
    AddressingMode::IMP, AddressingMode::IMM, AddressingMode::IMP, AddressingMode::IMP, AddressingMode::ABS, AddressingMode::ABS, AddressingMode::ABS, AddressingMode::IMP,
    AddressingMode::REL, AddressingMode::IZY, AddressingMode::IMP, AddressingMode::IMP, AddressingMode::ZPX, AddressingMode::ZPX, AddressingMode::ZPX, AddressingMode::IMP,
    AddressingMode::IMP, AddressingMode::ABY, AddressingMode::IMP, AddressingMode::IMP, AddressingMode::ABX, AddressingMode::ABX, AddressingMode::ABX, AddressingMode::IMP,
    AddressingMode::IMP, AddressingMode::IZX, AddressingMode::IMP, AddressingMode::IMP, AddressingMode::ZP0, AddressingMode::ZP0, AddressingMode::ZP0, AddressingMode::IMP,
    AddressingMode::IMP, AddressingMode::IMM, AddressingMode::IMP, AddressingMode::IMP, AddressingMode::IND, AddressingMode::ABS, AddressingMode::ABS, AddressingMode::IMP,
    AddressingMode::REL, AddressingMode::IZY, AddressingMode::IMP, AddressingMode::IMP, AddressingMode::ZPX, AddressingMode::ZPX, AddressingMode::ZPX, AddressingMode::IMP,
    AddressingMode::IMP, AddressingMode::ABY, AddressingMode::IMP, AddressingMode::IMP, AddressingMode::ABX, AddressingMode::ABX, AddressingMode::ABX, AddressingMode::IMP,
    AddressingMode::IMM, AddressingMode::IZX, AddressingMode::IMM, AddressingMode::IMP, AddressingMode::ZP0, AddressingMode::ZP0, AddressingMode::ZP0, AddressingMode::IMP,
    AddressingMode::IMP, AddressingMode::IMM, AddressingMode::IMP, AddressingMode::IMP, AddressingMode::ABS, AddressingMode::ABS, AddressingMode::ABS, AddressingMode::IMP,
    AddressingMode::REL, AddressingMode::IZY, AddressingMode::IMP, AddressingMode::IMP, AddressingMode::ZPX, AddressingMode::ZPX, AddressingMode::ZPY, AddressingMode::IMP,
    AddressingMode::IMP, AddressingMode::ABY, AddressingMode::IMP, AddressingMode::IMP, AddressingMode::IMP, AddressingMode::ABX, AddressingMode::IMP, AddressingMode::IMP,
    AddressingMode::IMM, AddressingMode::IZX, AddressingMode::IMM, AddressingMode::IMP, AddressingMode::ZP0, AddressingMode::ZP0, AddressingMode::ZP0, AddressingMode::IMP,
    AddressingMode::IMP, AddressingMode::IMM, AddressingMode::IMP, AddressingMode::IMP, AddressingMode::ABS, AddressingMode::ABS, AddressingMode::ABS, AddressingMode::IMP,
    AddressingMode::REL, AddressingMode::IZY, AddressingMode::IMP, AddressingMode::IMP, AddressingMode::ZPX, AddressingMode::ZPX, AddressingMode::ZPY, AddressingMode::IMP,
    AddressingMode::IMP, AddressingMode::ABY, AddressingMode::IMP, AddressingMode::IMP, AddressingMode::ABX, AddressingMode::ABX, AddressingMode::ABY, AddressingMode::IMP,
    AddressingMode::IMM, AddressingMode::IZX, AddressingMode::IMM, AddressingMode::IMP, AddressingMode::ZP0, AddressingMode::ZP0, AddressingMode::ZP0, AddressingMode::IMP,
    AddressingMode::IMP, AddressingMode::IMM, AddressingMode::IMP, AddressingMode::IMP, AddressingMode::ABS, AddressingMode::ABS, AddressingMode::ABS, AddressingMode::IMP,
    AddressingMode::REL, AddressingMode::IZY, AddressingMode::IMP, AddressingMode::IMP, AddressingMode::ZPX, AddressingMode::ZPX, AddressingMode::ZPX, AddressingMode::IMP,
    AddressingMode::IMP, AddressingMode::ABY, AddressingMode::IMP, AddressingMode::IMP, AddressingMode::ABX, AddressingMode::ABX, AddressingMode::ABX, AddressingMode::IMP,
    AddressingMode::IMM, AddressingMode::IZX, AddressingMode::IMM, AddressingMode::IMP, AddressingMode::ZP0, AddressingMode::ZP0, AddressingMode::ZP0, AddressingMode::IMP,
    AddressingMode::IMP, AddressingMode::IMM, AddressingMode::IMP, AddressingMode::IMM, AddressingMode::ABS, AddressingMode::ABS, AddressingMode::ABS, AddressingMode::IMP,
    AddressingMode::REL, AddressingMode::IZY, AddressingMode::IMP, AddressingMode::IMP, AddressingMode::ZPX, AddressingMode::ZPX, AddressingMode::ZPX, AddressingMode::IMP,
    AddressingMode::IMP, AddressingMode::ABY, AddressingMode::IMP, AddressingMode::IMP, AddressingMode::ABX, AddressingMode::ABX, AddressingMode::ABX, AddressingMode::IMP,
];

/// Operations by opcode.
pub const INSTRUCTION_OPERATIONS: [Operation; 256] = [
    Operation::BRK, Operation::ORA, Operation::XXX, Operation::XXX, Operation::NOP, Operation::ORA, Operation::ASL, Operation::XXX,
    Operation::PHP, Operation::ORA, Operation::ASL, Operation::XXX, Operation::NOP, Operation::ORA, Operation::ASL, Operation::XXX,
    Operation::BPL, Operation::ORA, Operation::XXX, Operation::XXX, Operation::NOP, Operation::ORA, Operation::ASL, Operation::XXX,
    Operation::CLC, Operation::ORA, Operation::NOP, Operation::XXX, Operation::NOP, Operation::ORA, Operation::ASL, Operation::XXX,
    Operation::JSR, Operation::AND, Operation::XXX, Operation::XXX, Operation::BIT, Operation::AND, Operation::ROL, Operation::XXX,
    Operation::PLP, Operation::AND, Operation::ROL, Operation::XXX, Operation::BIT, Operation::AND, Operation::ROL, Operation::XXX,
    Operation::BMI, Operation::AND, Operation::XXX, Operation::XXX, Operation::NOP, Operation::AND, Operation::ROL, Operation::XXX,
    Operation::SEC, Operation::AND, Operation::NOP, Operation::XXX, Operation::NOP, Operation::AND, Operation::ROL, Operation::XXX,
    Operation::RTI, Operation::EOR, Operation::XXX, Operation::XXX, Operation::NOP, Operation::EOR, Operation::LSR, Operation::XXX,
    Operation::PHA, Operation::EOR, Operation::LSR, Operation::XXX, Operation::JMP, Operation::EOR, Operation::LSR, Operation::XXX,
    Operation::BVC, Operation::EOR, Operation::XXX, Operation::XXX, Operation::NOP, Operation::EOR, Operation::LSR, Operation::XXX,
    Operation::CLI, Operation::EOR, Operation::NOP, Operation::XXX, Operation::NOP, Operation::EOR, Operation::LSR, Operation::XXX,
    Operation::RTS, Operation::ADC, Operation::XXX, Operation::XXX, Operation::NOP, Operation::ADC, Operation::ROR, Operation::XXX,
    Operation::PLA, Operation::ADC, Operation::ROR, Operation::XXX, Operation::JMP, Operation::ADC, Operation::ROR, Operation::XXX,
    Operation::BVS, Operation::ADC, Operation::XXX, Operation::XXX, Operation::NOP, Operation::ADC, Operation::ROR, Operation::XXX,
    Operation::SEI, Operation::ADC, Operation::NOP, Operation::XXX, Operation::NOP, Operation::ADC, Operation::ROR, Operation::XXX,
    Operation::NOP, Operation::STA, Operation::NOP, Operation::XXX, Operation::STY, Operation::STA, Operation::STX, Operation::XXX,
    Operation::DEY, Operation::NOP, Operation::TXA, Operation::XXX, Operation::STY, Operation::STA, Operation::STX, Operation::XXX,
    Operation::BCC, Operation::STA, Operation::XXX, Operation::XXX, Operation::STY, Operation::STA, Operation::STX, Operation::XXX,
    Operation::TYA, Operation::STA, Operation::TXS, Operation::XXX, Operation::NOP, Operation::STA, Operation::XXX, Operation::XXX,
    Operation::LDY, Operation::LDA, Operation::LDX, Operation::XXX, Operation::LDY, Operation::LDA, Operation::LDX, Operation::XXX,
    Operation::TAY, Operation::LDA, Operation::TAX, Operation::XXX, Operation::LDY, Operation::LDA, Operation::LDX, Operation::XXX,
    Operation::BCS, Operation::LDA, Operation::XXX, Operation::XXX, Operation::LDY, Operation::LDA, Operation::LDX, Operation::XXX,
    Operation::CLV, Operation::LDA, Operation::TSX, Operation::XXX, Operation::LDY, Operation::LDA, Operation::LDX, Operation::XXX,
    Operation::CPY, Operation::CMP, Operation::NOP, Operation::XXX, Operation::CPY, Operation::CMP, Operation::DEC, Operation::XXX,
    Operation::INY, Operation::CMP, Operation::DEX, Operation::XXX, Operation::CPY, Operation::CMP, Operation::DEC, Operation::XXX,
    Operation::BNE, Operation::CMP, Operation::XXX, Operation::XXX, Operation::NOP, Operation::CMP, Operation::DEC, Operation::XXX,
    Operation::CLD, Operation::CMP, Operation::NOP, Operation::XXX, Operation::NOP, Operation::CMP, Operation::DEC, Operation::XXX,
    Operation::CPX, Operation::SBC, Operation::NOP, Operation::XXX, Operation::CPX, Operation::SBC, Operation::INC, Operation::XXX,
    Operation::INX, Operation::SBC, Operation::NOP, Operation::SBC, Operation::CPX, Operation::SBC, Operation::INC, Operation::XXX,
    Operation::BEQ, Operation::SBC, Operation::XXX, Operation::XXX, Operation::NOP, Operation::SBC, Operation::INC, Operation::XXX,
    Operation::SED, Operation::SBC, Operation::NOP, Operation::XXX, Operation::NOP, Operation::SBC, Operation::INC, Operation::XXX,
];

/// Base cycles by opcode.
pub const INSTRUCTION_CYCLES: [u8; 256] = [
    7, 6, 2, 8, 3, 3, 5, 5, 3, 2, 2, 2, 4, 4, 6, 6,
    2, 5, 2, 8, 4, 4, 6, 6, 2, 4, 2, 7, 4, 4, 7, 7,
    6, 6, 2, 8, 3, 3, 5, 5, 4, 2, 2, 2, 4, 4, 6, 6,
    2, 5, 2, 8, 4, 4, 6, 6, 2, 4, 2, 7, 4, 4, 7, 7,
    6, 6, 2, 8, 3, 3, 5, 5, 3, 2, 2, 2, 3, 4, 6, 6,
    2, 5, 2, 8, 4, 4, 6, 6, 2, 4, 2, 7, 4, 4, 7, 7,
    6, 6, 2, 8, 3, 3, 5, 5, 4, 2, 2, 2, 5, 4, 6, 6,
    2, 5, 2, 8, 4, 4, 6, 6, 2, 4, 2, 7, 4, 4, 7, 7,
    2, 6, 2, 6, 3, 3, 3, 3, 2, 2, 2, 2, 4, 4, 4, 4,
    2, 6, 2, 6, 4, 4, 4, 4, 2, 5, 2, 5, 5, 5, 5, 5,
    2, 6, 2, 6, 3, 3, 3, 3, 2, 2, 2, 2, 4, 4, 4, 4,
    2, 5, 2, 5, 4, 4, 4, 4, 2, 4, 2, 4, 4, 4, 4, 4,
    2, 6, 2, 8, 3, 3, 5, 5, 2, 2, 2, 2, 4, 4, 6, 6,
    2, 5, 2, 8, 4, 4, 6, 6, 2, 4, 2, 7, 4, 4, 7, 7,
    2, 6, 2, 8, 3, 3, 5, 5, 2, 2, 2, 2, 4, 4, 6, 6,
    2, 5, 2, 8, 4, 4, 6, 6, 2, 4, 2, 7, 4, 4, 7, 7,
];

/// The table's row for `opcode`.
#[verifier::opaque]
pub open spec fn instruction_model(opcode: u8) -> Instruction {
    Instruction {
        name: INSTRUCTION_NAMES[opcode as int],
        addr_mode: INSTRUCTION_MODES[opcode as int],
        function: INSTRUCTION_OPERATIONS[opcode as int],
        clock_cycles: INSTRUCTION_CYCLES[opcode as int],
    }
}

pub fn instruction_lookup(opcode: u8) -> (r: Instruction)
    ensures
        r == instruction_model(opcode),
{
    proof {
        reveal(instruction_model);
    }
    Instruction {
        name: INSTRUCTION_NAMES[opcode as usize],
        addr_mode: INSTRUCTION_MODES[opcode as usize],
        function: INSTRUCTION_OPERATIONS[opcode as usize],
        clock_cycles: INSTRUCTION_CYCLES[opcode as usize],
    }
}

} // verus!
