//! The 6502: its registers, its bus accesses, its clock and its interrupts.

use crate::bus::{Bus, BusReader, BusWriter};
use crate::instructions::instruction::{
    process_instruction_addressing_mode, AddressingMode, Instruction,
};
use crate::instructions::instruction_functions::execute;
use crate::instructions::instruction_table::instruction_table::{
    instruction_lookup, instruction_model,
};
use vstd::prelude::*;

verus! {

/// The flags of the status register P.
#[allow(non_camel_case_types)]
#[derive(Debug, Clone, Copy, PartialEq, Eq, Structural)]
pub enum CPUFlags {
    /// Carry
    C,
    /// Zero
    Z,
    /// Interrupts off
    I,
    /// Decimal mode
    D,
    /// Break
    B,
    /// Unused, reads as set
    U,
    /// Overflow
    V,
    /// Negative
    N,
}

impl CPUFlags {
    /// The flag's bit in P.
    pub open spec fn mask(self) -> u8 {
        match self {
            CPUFlags::C => 0x01,
            CPUFlags::Z => 0x02,
            CPUFlags::I => 0x04,
            CPUFlags::D => 0x08,
            CPUFlags::B => 0x10,
            CPUFlags::U => 0x20,
            CPUFlags::V => 0x40,
            CPUFlags::N => 0x80,
        }
    }

    pub fn bits(self) -> (r: u8)
        ensures
            r == self.mask(),
    {
        match self {
            CPUFlags::C => 0x01,
            CPUFlags::Z => 0x02,
            CPUFlags::I => 0x04,
            CPUFlags::D => 0x08,
            CPUFlags::B => 0x10,
            CPUFlags::U => 0x20,
            CPUFlags::V => 0x40,
            CPUFlags::N => 0x80,
        }
    }
}

/// Whether `flag` is up in `status`.
pub open spec fn flag_of(status: u8, flag: CPUFlags) -> bool {
    status & flag.mask() != 0
}

/// `status` with `flag` put up or down.
pub open spec fn with_flag(status: u8, flag: CPUFlags, v: bool) -> u8 {
    if v {
        status | flag.mask()
    } else {
        status & !flag.mask()
    }
}

/// `status` with Z and N as `value` sets them: Z where it is zero, N where
/// its top bit is set.
pub open spec fn with_nz(status: u8, value: u8) -> u8 {
    with_flag(with_flag(status, CPUFlags::Z, value == 0), CPUFlags::N, value & 0x80 != 0)
}

/// The address of the stack byte that `stack_pointer` points at, in page 1.
pub open spec fn stack_address(stack_pointer: u8) -> u16 {
    (0x0100 + stack_pointer) as u16
}

/// The 16-bit word of a low and a high byte.
pub open spec fn word_of(lo: u8, hi: u8) -> u16 {
    ((hi as u16) << 8) | (lo as u16)
}

pub struct Cpu6502 {
    pub acc: u8,
    pub x_reg: u8,
    pub y_reg: u8,
    pub stack_pointer: u8,
    pub pc: u16,
    pub status: u8,
    pub fetched: u8,
    pub temp: u16,
    pub addr_abs: u16,
    pub addr_rel: u16,
    pub addressing_mode: AddressingMode,
    /// Cycles left of the instruction in work; 0 between instructions.
    pub cycles: u8,
    pub opcode: u8,
    pub clock_count: u32,
    pub instruction_count: usize,
    pub instruction: Instruction,
    pub instruction_complete: bool,
    /// A non-maskable interrupt waits for the instruction in work to end.
    pub nmi_pending: bool,
    /// The interrupt request line is held.
    pub irq_pending: bool,
    pub bus: Bus,
}

impl Cpu6502 {
    pub open spec fn wf(&self) -> bool {
        self.bus.wf()
    }

    /// Whether the CPU is well formed.
    pub fn is_valid(&self) -> (r: bool)
        ensures
            r == self.wf(),
    {
        self.bus.is_valid()
    }

    /// The CPU after a bus read at `addr`, and the byte read.
    pub open spec fn read_model(self, addr: u16) -> (Cpu6502, u8) {
        let (bus, data) = self.bus.cpu_read_model(addr, false);
        (Cpu6502 { bus, ..self }, data)
    }

    /// The CPU after a bus write of `data` at `addr`.
    pub open spec fn write_model(self, addr: u16, data: u8) -> Cpu6502 {
        Cpu6502 { bus: self.bus.cpu_write_model(addr, data), ..self }
    }

    /// The CPU after it read a word, low byte first, and the word.
    pub open spec fn read_two_bytes_model(self, addr: u16) -> (Cpu6502, u16) {
        let (first, lo) = self.read_model(addr);
        let (second, hi) = first.read_model(addr.wrapping_add(1));
        (second, word_of(lo, hi))
    }

    /// The CPU after it pushed `data`: the byte lies where the stack
    /// pointer pointed, and the stack pointer is one lower.
    pub open spec fn push_model(self, data: u8) -> Cpu6502 {
        let written = self.write_model(stack_address(self.stack_pointer), data);
        Cpu6502 { stack_pointer: self.stack_pointer.wrapping_sub(1), ..written }
    }

    /// The CPU after it pushed a word, high byte first.
    pub open spec fn push_two_bytes_model(self, data: u16) -> Cpu6502 {
        self.push_model((data >> 8) as u8).push_model((data & 0x00FF) as u8)
    }

    /// The CPU after it pulled a byte, and the byte: the stack pointer is
    /// one higher, and the byte is the one it then points at.
    pub open spec fn pop_model(self) -> (Cpu6502, u8) {
        let raised = Cpu6502 { stack_pointer: self.stack_pointer.wrapping_add(1), ..self };
        raised.read_model(stack_address(raised.stack_pointer))
    }

    /// The CPU after it pulled a word, low byte first, and the word.
    pub open spec fn pop_two_bytes_model(self) -> (Cpu6502, u16) {
        let (first, lo) = self.pop_model();
        let (second, hi) = first.pop_model();
        (second, word_of(lo, hi))
    }

    /// The CPU with its operand fetched: the byte at the operand's
    /// address, or the accumulator where the mode is implied.
    pub open spec fn fetch_model(self) -> Cpu6502 {
        if self.addressing_mode != AddressingMode::IMP {
            let (read, data) = self.read_model(self.addr_abs);
            Cpu6502 { fetched: data, ..read }
        } else {
            self
        }
    }

    pub fn read_bus(&mut self, addr: u16) -> (r: u8)
        requires
            old(self).wf(),
        ensures
            (*final(self), r) == old(self).read_model(addr),
            final(self).wf(),
    {
        self.bus_read(addr, false)
    }

    pub fn write_bus(&mut self, addr: u16, data: u8)
        requires
            old(self).wf(),
        ensures
            *final(self) == old(self).write_model(addr, data),
            final(self).wf(),
    {
        self.bus_write(addr, data)
    }

    /// 1 where `flag` is up, 0 where it is down.
    pub fn get_flag(&self, flag: CPUFlags) -> (r: u8)
        ensures
            r == (if flag_of(self.status, flag) {
                1u8
            } else {
                0u8
            }),
    {
        if self.status & flag.bits() != 0 {
            1
        } else {
            0
        }
    }

    pub fn set_flag(&mut self, flag: CPUFlags, v: bool)
        ensures
            *final(self) == (Cpu6502 { status: with_flag(old(self).status, flag, v), ..*old(self) }),
    {
        if v {
            self.status = self.status | flag.bits();
        } else {
            self.status = self.status & !flag.bits();
        }
    }

    pub fn read_bus_two_bytes(&mut self, addr: u16) -> (r: u16)
        requires
            old(self).wf(),
        ensures
            (*final(self), r) == old(self).read_two_bytes_model(addr),
            final(self).wf(),
    {
        let lo: u8 = self.read_bus(addr);
        let hi: u8 = self.read_bus(addr.wrapping_add(1));
        ((hi as u16) << 8) | (lo as u16)
    }

    pub fn push(&mut self, data: u8)
        requires
            old(self).wf(),
        ensures
            *final(self) == old(self).push_model(data),
            final(self).wf(),
    {
        self.write_bus(0x0100 + self.stack_pointer as u16, data);
        self.stack_pointer = self.stack_pointer.wrapping_sub(1);
    }

    /// Pushes a word, high byte first.
    pub fn write_bus_two_bytes(&mut self, data: u16)
        requires
            old(self).wf(),
        ensures
            *final(self) == old(self).push_two_bytes_model(data),
            final(self).wf(),
    {
        proof {
            lemma_bytes_of(data);
        }
        self.push((data >> 8) as u8);
        self.push((data & 0x00FF) as u8);
    }

    pub fn pop(&mut self) -> (r: u8)
        requires
            old(self).wf(),
        ensures
            (*final(self), r) == old(self).pop_model(),
            final(self).wf(),
    {
        self.stack_pointer = self.stack_pointer.wrapping_add(1);
        self.read_bus(0x0100 + self.stack_pointer as u16)
    }

    pub fn pop_two_bytes(&mut self) -> (r: u16)
        requires
            old(self).wf(),
        ensures
            (*final(self), r) == old(self).pop_two_bytes_model(),
            final(self).wf(),
    {
        let lo: u8 = self.pop();
        let hi: u8 = self.pop();
        ((hi as u16) << 8) | (lo as u16)
    }

    pub fn fetch(&mut self) -> (r: u8)
        requires
            old(self).wf(),
        ensures
            *final(self) == old(self).fetch_model(),
            r == final(self).fetched,
            final(self).wf(),
    {
        if self.addressing_mode != AddressingMode::IMP {
            self.fetched = self.read_bus(self.addr_abs);
        }
        self.fetched
    }

    /// The CPU after an interrupt through the vector at `vector`: the
    /// program counter and then P, with B down and U up, are on the stack,
    /// I is up, the program counter comes from the vector, and seven
    /// cycles are to run.
    pub open spec fn interrupt_model(self, vector: u16) -> Cpu6502 {
        let pushed_pc = self.push_two_bytes_model(self.pc);
        let status = with_flag(with_flag(self.status, CPUFlags::B, false), CPUFlags::U, true);
        let pushed = pushed_pc.push_model(status);
        let (read, target) = pushed.read_two_bytes_model(vector);
        Cpu6502 {
            status: with_flag(status, CPUFlags::I, true),
            addr_abs: vector,
            pc: target,
            cycles: 7,
            ..read
        }
    }

    #[verifier::rlimit(50)]
    fn interrupt(&mut self, vector: u16)
        requires
            old(self).wf(),
        ensures
            *final(self) == old(self).interrupt_model(vector),
            final(self).wf(),
    {
        self.write_bus_two_bytes(self.pc);
        self.set_flag(CPUFlags::B, false);
        self.set_flag(CPUFlags::U, true);
        self.push(self.status);
        self.set_flag(CPUFlags::I, true);
        self.addr_abs = vector;
        self.pc = self.read_bus_two_bytes(vector);
        self.cycles = 7;
    }

    /// The CPU after an interrupt request: served through $FFFE unless I
    /// is up.
    pub open spec fn irq_model(self) -> Cpu6502 {
        if flag_of(self.status, CPUFlags::I) {
            self
        } else {
            self.interrupt_model(0xFFFE)
        }
    }

    pub fn irq(&mut self)
        requires
            old(self).wf(),
        ensures
            *final(self) == old(self).irq_model(),
            final(self).wf(),
    {
        if self.get_flag(CPUFlags::I) != 0 {
            return ;
        }
        self.interrupt(0xFFFE);
    }

    /// The CPU after a non-maskable interrupt: served through $FFFA, and
    /// no longer pending.
    pub open spec fn nmi_model(self) -> Cpu6502 {
        Cpu6502 { nmi_pending: false, ..self.interrupt_model(0xFFFA) }
    }

    pub fn nmi(&mut self)
        requires
            old(self).wf(),
        ensures
            *final(self) == old(self).nmi_model(),
            final(self).wf(),
    {
        self.interrupt(0xFFFA);
        self.nmi_pending = false;
    }

    /// Raises the non-maskable interrupt, to be served when the
    /// instruction in work has ended.
    pub fn signal_nmi(&mut self)
        ensures
            *final(self) == (Cpu6502 { nmi_pending: true, ..*old(self) }),
    {
        self.nmi_pending = true;
    }

    /// Holds or releases the interrupt request line.
    pub fn signal_irq(&mut self, held: bool)
        ensures
            *final(self) == (Cpu6502 { irq_pending: held, ..*old(self) }),
    {
        self.irq_pending = held;
    }

    /// The CPU after reset: A, X and Y are zero, the stack pointer is $FD,
    /// P has U and I up and nothing else, the program counter is
    /// `reset_vector` or, without one, the word at $FFFC, and seven cycles
    /// are to run.
    pub open spec fn reset_model(self, reset_vector: Option<u16>) -> Cpu6502 {
        let (read, target) = match reset_vector {
            Some(start) => (self, start),
            None => self.read_two_bytes_model(0xFFFC),
        };
        Cpu6502 {
            pc: target,
            acc: 0,
            x_reg: 0,
            y_reg: 0,
            stack_pointer: 0xFD,
            status: 0x24,
            addr_rel: 0,
            addr_abs: 0,
            fetched: 0,
            instruction_count: 0,
            clock_count: 0,
            cycles: 7,
            nmi_pending: false,
            irq_pending: false,
            ..read
        }
    }

    #[verifier::rlimit(50)]
    pub fn reset(&mut self, reset_vector: Option<u16>)
        requires
            old(self).wf(),
        ensures
            *final(self) == old(self).reset_model(reset_vector),
            final(self).wf(),
    {
        self.addr_abs = 0xFFFC;
        match reset_vector {
            Some(x) => {
                self.pc = x;
            },
            None => {
                self.pc = self.read_bus_two_bytes(0xFFFC);
            },
        }
        self.acc = 0;
        self.x_reg = 0;
        self.y_reg = 0;
        self.stack_pointer = 0xFD;
        self.status = 0x24;
        self.addr_rel = 0x0000;
        self.addr_abs = 0x0000;
        self.fetched = 0x00;
        self.instruction_count = 0;
        self.clock_count = 0;
        self.cycles = 7;
        self.nmi_pending = false;
        self.irq_pending = false;
    }

    /// The CPU after it read the opcode at the program counter: the
    /// program counter is past the opcode, and the table's row for the
    /// opcode is the instruction in work.
    pub open spec fn decoded_model(self) -> Cpu6502 {
        let (read, opcode) = self.read_model(self.pc);
        Cpu6502 {
            opcode,
            pc: self.pc.wrapping_add(1),
            instruction: instruction_model(opcode),
            addressing_mode: instruction_model(opcode).addr_mode,
            ..read
        }
    }

    /// The CPU after it ran the instruction at the program counter: the
    /// opcode is read and the program counter moved past it, the table's
    /// row for the opcode is looked up, the addressing mode finds the
    /// operand, the operation runs, and the cycles to run are the row's
    /// base cycles and the mode's penalty on top of what the operation
    /// itself added. U is up afterwards.
    pub open spec fn step_model(self) -> Cpu6502 {
        let decoded = self.decoded_model();
        let (addressed, penalty) = decoded.addressing_model();
        let run = addressed.execute_model(decoded.instruction.function);
        Cpu6502 {
            cycles: run.cycles.wrapping_add(decoded.instruction.clock_cycles).wrapping_add(
                penalty,
            ),
            status: with_flag(run.status, CPUFlags::U, true),
            instruction_count: run.instruction_count.wrapping_add(1),
            instruction_complete: true,
            ..run
        }
    }

    #[verifier::rlimit(50)]
    pub fn step(&mut self)
        requires
            old(self).wf(),
        ensures
            *final(self) == old(self).step_model(),
            final(self).wf(),
    {
        self.opcode = self.read_bus(self.pc);
        self.pc = self.pc.wrapping_add(1);
        let instruction: Instruction = instruction_lookup(self.opcode);
        self.instruction = instruction;
        self.addressing_mode = instruction.addr_mode;
        let page_change_additional_cycle: u8 = process_instruction_addressing_mode(self);
        execute(instruction.function, self);
        self.cycles = self.cycles.wrapping_add(instruction.clock_cycles).wrapping_add(
            page_change_additional_cycle,
        );
        self.set_flag(CPUFlags::U, true);
        self.instruction_count = self.instruction_count.wrapping_add(1);
        self.instruction_complete = true;
    }

    /// What the CPU does between two instructions: it serves a pending
    /// non-maskable interrupt, else an interrupt request that I does not
    /// mask, else it runs the next instruction.
    pub open spec fn boundary_model(self) -> Cpu6502 {
        if self.nmi_pending {
            self.nmi_model()
        } else if self.irq_pending && !flag_of(self.status, CPUFlags::I) {
            self.irq_model()
        } else {
            self.step_model()
        }
    }

    /// The CPU one cycle on. Between instructions it first does what
    /// [`Self::boundary_model`] says; then one cycle of the cycles to run
    /// is spent.
    #[verifier::opaque]
    pub open spec fn clock_model(self) -> Cpu6502 {
        let begun = if self.cycles == 0 {
            self.boundary_model()
        } else {
            self
        };
        Cpu6502 {
            clock_count: begun.clock_count.wrapping_add(1),
            cycles: begun.cycles.wrapping_sub(1),
            ..begun
        }
    }

    #[verifier::rlimit(50)]
    pub fn clock(&mut self)
        requires
            old(self).wf(),
        ensures
            *final(self) == old(self).clock_model(),
            final(self).wf(),
    {
        proof {
            reveal(Cpu6502::clock_model);
        }
        if self.cycles == 0 {
            if self.nmi_pending {
                self.nmi();
            } else if self.irq_pending && self.get_flag(CPUFlags::I) == 0 {
                self.irq();
            } else {
                self.step();
            }
        }
        self.clock_count = self.clock_count.wrapping_add(1);
        self.cycles = self.cycles.wrapping_sub(1);
    }

    /// One cycle: [`Self::clock`] under its other name.
    pub fn tick(&mut self)
        requires
            old(self).wf(),
        ensures
            *final(self) == old(self).clock_model(),
            final(self).wf(),
    {
        self.clock();
    }

    #[verifier::rlimit(50)]
    pub fn new(b: Bus) -> (r: Self)
        requires
            b.wf(),
        ensures
            r.wf(),
            r.bus == b,
            r.acc == 0,
            r.x_reg == 0,
            r.y_reg == 0,
            r.stack_pointer == 0xFD,
            r.pc == 0,
            r.status == 0,
            r.cycles == 1,
            r.clock_count == 0,
            r.instruction_count == 0,
            !r.instruction_complete,
            !r.nmi_pending,
            !r.irq_pending,
            r.instruction == instruction_model(0xFF),
            r.addressing_mode == AddressingMode::ABS,
            r.addr_abs == 0xFFFC,
            r.addr_rel == 0,
            r.fetched == 0,
            r.temp == 0,
            r.opcode == 0,
    {
        Cpu6502 {
            acc: 0x00,
            x_reg: 0x00,
            y_reg: 0x00,
            stack_pointer: 0xFD,
            pc: 0x0000,
            status: 0x00,
            fetched: 0x00,
            temp: 0x0000,
            addr_abs: 0xFFFC,
            addr_rel: 0x00,
            addressing_mode: AddressingMode::ABS,
            opcode: 0x00,
            cycles: 1,
            clock_count: 0,
            instruction_count: 0,
            instruction_complete: false,
            nmi_pending: false,
            irq_pending: false,
            bus: b,
            instruction: instruction_lookup(0xFF),
        }
    }
}

pub proof fn lemma_bytes_of(data: u16)
    by (bit_vector)
    ensures
        data >> 8 <= 0xFF,
        data & 0x00FF <= 0xFF,
{
}

impl BusReader for Cpu6502 {
    open spec fn bus_ready(&self) -> bool {
        self.wf()
    }

    open spec fn bus_read_model(self, addr: u16, read_only: bool) -> (Self, u8) {
        self.read_model(addr)
    }

    fn bus_read(&mut self, addr: u16, _read_only: bool) -> (r: u8) {
        self.bus.cpu_read(addr, false)
    }
}

impl BusWriter for Cpu6502 {
    open spec fn bus_writable(&self) -> bool {
        self.wf()
    }

    open spec fn bus_write_model(self, addr: u16, data: u8) -> Self {
        self.write_model(addr, data)
    }

    fn bus_write(&mut self, addr: u16, data: u8) {
        self.bus.cpu_write(addr, data);
    }
}

} // verus!
