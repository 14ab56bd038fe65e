//! Instructions as the table describes them, and the addressing modes that
//! find their operands.

use crate::cpu::{word_of, Cpu6502};
use vstd::prelude::*;

verus! {

/// How an instruction finds its operand.
#[allow(non_camel_case_types)]
#[derive(Debug, PartialEq, Eq, Clone, Copy, Structural)]
pub enum AddressingMode {
    /// Implied: no operand, or the accumulator.
    IMP,
    /// Immediate: the byte after the opcode.
    IMM,
    /// Zero page.
    ZP0,
    /// Zero page, indexed by X.
    ZPX,
    /// Zero page, indexed by Y.
    ZPY,
    /// Relative: a signed displacement for a branch.
    REL,
    /// Absolute.
    ABS,
    /// Absolute, indexed by X.
    ABX,
    /// Absolute, indexed by Y.
    ABY,
    /// Indirect.
    IND,
    /// Indexed by X, then indirect.
    IZX,
    /// Indirect, then indexed by Y.
    IZY,
    /// None: the mode of an instruction that is none.
    YYY,
}

/// What an instruction does to the machine.
#[allow(non_camel_case_types)]
#[derive(Debug, PartialEq, Eq, Clone, Copy, Structural)]
pub enum Operation {
    ADC, AND, ASL, BCC, BCS, BEQ, BIT, BMI, BNE, BPL, BRK, BVC, BVS, CLC, CLD, CLI, CLV,
    CMP, CPX, CPY, DEC, DEX, DEY, EOR, INC, INX, INY, JMP, JSR, LDA, LDX, LDY, LSR, NOP,
    ORA, PHA, PHP, PLA, PLP, ROL, ROR, RTI, RTS, SBC, SEC, SED, SEI, STA, STX, STY, TAX,
    TAY, TSX, TXA, TXS, TYA, XXX,
}

/// One row of the opcode table.
#[derive(Debug, Clone, Copy)]
pub struct Instruction {
    pub name: &'static str,
    pub addr_mode: AddressingMode,
    pub function: Operation,
    pub clock_cycles: u8,
}

impl Default for Instruction {
    fn default() -> (r: Self)
        ensures
            r.name@ == "???"@,
            r.addr_mode == AddressingMode::YYY,
            r.function == Operation::XXX,
            r.clock_cycles == 0,
    {
        Instruction {
            name: "???",
            addr_mode: AddressingMode::YYY,
            function: Operation::XXX,
            clock_cycles: 0,
        }
    }
}

/// How many bytes of operand follow the opcode in each mode.
pub open spec fn operand_bytes(mode: AddressingMode) -> int {
    match mode {
        AddressingMode::IMP | AddressingMode::YYY => 0,
        AddressingMode::IMM
        | AddressingMode::IZX
        | AddressingMode::IZY
        | AddressingMode::REL
        | AddressingMode::ZP0
        | AddressingMode::ZPX
        | AddressingMode::ZPY => 1,
        AddressingMode::ABS | AddressingMode::ABX | AddressingMode::ABY | AddressingMode::IND => 2,
    }
}

/// 1 where two addresses lie in different pages of 256 bytes, else 0.
pub open spec fn page_change(previous: u16, current: u16) -> u8 {
    if current & 0xFF00 != previous & 0xFF00 {
        1
    } else {
        0
    }
}

/// A branch displacement as a 16-bit word: the byte, sign-extended.
pub open spec fn sign_extended(displacement: u8) -> u16 {
    if displacement & 0x80 != 0 {
        (displacement as u16) | 0xFF00
    } else {
        displacement as u16
    }
}

pub fn check_page_change(previous: &u16, current: &u16) -> (r: u8)
    ensures
        r == page_change(*previous, *current),
{
    if *current & 0xFF00 != *previous & 0xFF00 {
        return 1;
    }
    0
}

impl Cpu6502 {
    /// Zero page, indexed by `index`: the operand's address is the byte
    /// after the opcode plus the index, and stays in page zero.
    pub open spec fn zero_page_model(self, index: u8) -> Cpu6502 {
        let (read, operand) = self.read_model(self.pc);
        Cpu6502 {
            addr_abs: operand.wrapping_add(index) as u16,
            pc: self.pc.wrapping_add(1),
            ..read
        }
    }

    /// Relative: the byte after the opcode is a signed displacement.
    pub open spec fn relative_model(self) -> Cpu6502 {
        let (read, operand) = self.read_model(self.pc);
        Cpu6502 { addr_rel: sign_extended(operand), pc: self.pc.wrapping_add(1), ..read }
    }

    /// Absolute, indexed by `index`: the operand's address is the word
    /// after the opcode plus the index. The extra cycle is due where the
    /// sum leaves the word's page.
    pub open spec fn absolute_model(self, index: u8) -> (Cpu6502, u8) {
        let (read, operand) = self.read_two_bytes_model(self.pc);
        let target = operand.wrapping_add(index as u16);
        (
            Cpu6502 { addr_abs: target, pc: self.pc.wrapping_add(2), ..read },
            page_change(operand, target),
        )
    }

    /// Indirect: the word after the opcode points at the operand's
    /// address. A pointer at the last byte of a page takes its high byte
    /// from the first byte of that page, not from the next page.
    pub open spec fn indirect_model(self) -> Cpu6502 {
        let (read, pointer) = self.read_two_bytes_model(self.pc);
        let (first, lo) = read.read_model(pointer);
        let (second, hi) = first.read_model(
            if pointer & 0x00FF == 0x00FF {
                pointer & 0xFF00
            } else {
                pointer.wrapping_add(1)
            },
        );
        Cpu6502 { addr_abs: word_of(lo, hi), pc: self.pc.wrapping_add(2), ..second }
    }

    /// Indexed indirect: the byte after the opcode plus X points, inside
    /// page zero, at the operand's address.
    pub open spec fn indexed_indirect_model(self) -> Cpu6502 {
        let (read, operand) = self.read_model(self.pc);
        let pointer = operand.wrapping_add(self.x_reg);
        let (first, lo) = read.read_model(pointer as u16);
        let (second, hi) = first.read_model(pointer.wrapping_add(1) as u16);
        Cpu6502 { addr_abs: word_of(lo, hi), pc: self.pc.wrapping_add(1), ..second }
    }

    /// Indirect indexed: the byte after the opcode points, inside page
    /// zero, at a word; the operand's address is that word plus Y. The
    /// extra cycle is due where the sum leaves the word's page.
    pub open spec fn indirect_indexed_model(self) -> (Cpu6502, u8) {
        let (read, operand) = self.read_model(self.pc);
        let (first, lo) = read.read_model(operand as u16);
        let (second, hi) = first.read_model(operand.wrapping_add(1) as u16);
        let base = word_of(lo, hi);
        let target = base.wrapping_add(self.y_reg as u16);
        (
            Cpu6502 { addr_abs: target, pc: self.pc.wrapping_add(1), ..second },
            page_change(base, target),
        )
    }

    /// The CPU after its instruction's addressing mode found the operand,
    /// and the extra cycle the mode costs. The program counter has moved
    /// past the operand. An implied operand is the accumulator; an
    /// immediate operand is the byte after the opcode.
    #[verifier::opaque]
    pub open spec fn addressing_model(self) -> (Cpu6502, u8) {
        match self.instruction.addr_mode {
            AddressingMode::IMP => (Cpu6502 { fetched: self.acc, ..self }, 0),
            AddressingMode::IMM => (
                Cpu6502 { addr_abs: self.pc, pc: self.pc.wrapping_add(1), ..self },
                0,
            ),
            AddressingMode::ZP0 => (self.zero_page_model(0), 0),
            AddressingMode::ZPX => (self.zero_page_model(self.x_reg), 0),
            AddressingMode::ZPY => (self.zero_page_model(self.y_reg), 0),
            AddressingMode::REL => (self.relative_model(), 0),
            AddressingMode::ABS => self.absolute_model(0),
            AddressingMode::ABX => self.absolute_model(self.x_reg),
            AddressingMode::ABY => self.absolute_model(self.y_reg),
            AddressingMode::IND => (self.indirect_model(), 0),
            AddressingMode::IZX => (self.indexed_indirect_model(), 0),
            AddressingMode::IZY => self.indirect_indexed_model(),
            AddressingMode::YYY => (self, 0),
        }
    }
}

fn address_zero_page(cpu: &mut Cpu6502, index: u8)
    requires
        old(cpu).wf(),
    ensures
        *final(cpu) == old(cpu).zero_page_model(index),
        final(cpu).wf(),
{
    let operand: u8 = cpu.read_bus(cpu.pc);
    cpu.addr_abs = operand.wrapping_add(index) as u16;
    cpu.pc = cpu.pc.wrapping_add(1);
}

fn address_relative(cpu: &mut Cpu6502)
    requires
        old(cpu).wf(),
    ensures
        *final(cpu) == old(cpu).relative_model(),
        final(cpu).wf(),
{
    let operand: u8 = cpu.read_bus(cpu.pc);
    cpu.addr_rel = operand as u16;
    cpu.pc = cpu.pc.wrapping_add(1);
    if operand & 0x80 != 0 {
        cpu.addr_rel = cpu.addr_rel | 0xFF00;
    }
}

#[verifier::rlimit(50)]
fn address_absolute(cpu: &mut Cpu6502, index: u8) -> (r: u8)
    requires
        old(cpu).wf(),
    ensures
        (*final(cpu), r) == old(cpu).absolute_model(index),
        final(cpu).wf(),
{
    let addr: u16 = cpu.read_bus_two_bytes(cpu.pc);
    cpu.pc = cpu.pc.wrapping_add(2);
    cpu.addr_abs = addr.wrapping_add(index as u16);
    check_page_change(&addr, &cpu.addr_abs)
}

#[verifier::rlimit(50)]
fn address_indirect(cpu: &mut Cpu6502)
    requires
        old(cpu).wf(),
    ensures
        *final(cpu) == old(cpu).indirect_model(),
        final(cpu).wf(),
{
    let ptr: u16 = cpu.read_bus_two_bytes(cpu.pc);
    cpu.pc = cpu.pc.wrapping_add(2);
    let lo: u8 = cpu.read_bus(ptr);
    let hi: u8 = if ptr & 0x00FF == 0x00FF {
        cpu.read_bus(ptr & 0xFF00)
    } else {
        cpu.read_bus(ptr.wrapping_add(1))
    };
    cpu.addr_abs = ((hi as u16) << 8) | (lo as u16);
}

#[verifier::rlimit(50)]
fn address_indexed_indirect(cpu: &mut Cpu6502)
    requires
        old(cpu).wf(),
    ensures
        *final(cpu) == old(cpu).indexed_indirect_model(),
        final(cpu).wf(),
{
    let operand: u8 = cpu.read_bus(cpu.pc);
    cpu.pc = cpu.pc.wrapping_add(1);
    let pointer: u8 = operand.wrapping_add(cpu.x_reg);
    let lo: u8 = cpu.read_bus(pointer as u16);
    let hi: u8 = cpu.read_bus(pointer.wrapping_add(1) as u16);
    cpu.addr_abs = ((hi as u16) << 8) | (lo as u16);
}

#[verifier::rlimit(50)]
fn address_indirect_indexed(cpu: &mut Cpu6502) -> (r: u8)
    requires
        old(cpu).wf(),
    ensures
        (*final(cpu), r) == old(cpu).indirect_indexed_model(),
        final(cpu).wf(),
{
    let operand: u8 = cpu.read_bus(cpu.pc);
    cpu.pc = cpu.pc.wrapping_add(1);
    let lo: u8 = cpu.read_bus(operand as u16);
    let hi: u8 = cpu.read_bus(operand.wrapping_add(1) as u16);
    let base: u16 = ((hi as u16) << 8) | (lo as u16);
    cpu.addr_abs = base.wrapping_add(cpu.y_reg as u16);
    check_page_change(&base, &cpu.addr_abs)
}

#[verifier::rlimit(50)]
pub fn process_instruction_addressing_mode(cpu: &mut Cpu6502) -> (r: u8)
    requires
        old(cpu).wf(),
    ensures
        (*final(cpu), r) == old(cpu).addressing_model(),
        final(cpu).wf(),
{
    proof {
        reveal(Cpu6502::addressing_model);
    }
    match cpu.instruction.addr_mode {
        AddressingMode::IMP => {
            cpu.fetched = cpu.acc;
            0
        },
        AddressingMode::IMM => {
            cpu.addr_abs = cpu.pc;
            cpu.pc = cpu.pc.wrapping_add(1);
            0
        },
        AddressingMode::ZP0 => {
            address_zero_page(cpu, 0);
            0
        },
        AddressingMode::ZPX => {
            address_zero_page(cpu, cpu.x_reg);
            0
        },
        AddressingMode::ZPY => {
            address_zero_page(cpu, cpu.y_reg);
            0
        },
        AddressingMode::REL => {
            address_relative(cpu);
            0
        },
        AddressingMode::ABS => address_absolute(cpu, 0),
        AddressingMode::ABX => address_absolute(cpu, cpu.x_reg),
        AddressingMode::ABY => address_absolute(cpu, cpu.y_reg),
        AddressingMode::IND => {
            address_indirect(cpu);
            0
        },
        AddressingMode::IZX => {
            address_indexed_indirect(cpu);
            0
        },
        AddressingMode::IZY => address_indirect_indexed(cpu),
        AddressingMode::YYY => 0,
    }
}

} // verus!
