//! What each operation does: one function per mnemonic.

use crate::cpu::{flag_of, with_flag, with_nz, CPUFlags, Cpu6502};
use crate::instructions::instruction::{page_change, AddressingMode, Operation};
use vstd::prelude::*;

verus! {

/// 1 for a flag that is up, 0 for one that is down.
pub open spec fn carry_in(status: u8) -> u8 {
    if flag_of(status, CPUFlags::C) {
        1
    } else {
        0
    }
}

/// Whether adding `operand` to `acc` gave a `result` of the wrong sign:
/// both had one sign and the result has the other.
pub open spec fn signed_overflow(acc: u8, operand: u8, result: u8) -> bool {
    (!(acc ^ operand) & (acc ^ result)) & 0x80 != 0
}

impl Cpu6502 {
    /// The CPU with Z and N set by `value`.
    pub open spec fn with_nz_model(self, value: u8) -> Cpu6502 {
        Cpu6502 { status: with_nz(self.status, value), ..self }
    }

    /// The CPU after `operand` and the carry were added to the
    /// accumulator: the sum's low byte is the accumulator, C is the carry
    /// out of it, V tells a signed overflow, and Z and N follow the result.
    pub open spec fn add_model(self, operand: u8) -> Cpu6502 {
        let sum = (self.acc + operand + carry_in(self.status)) as u16;
        let result = (sum % 256) as u8;
        let overflowed = with_flag(
            self.status,
            CPUFlags::V,
            signed_overflow(self.acc, operand, result),
        );
        let carried = with_flag(overflowed, CPUFlags::C, sum > 0xFF);
        Cpu6502 { temp: sum, acc: result, status: with_nz(carried, result), ..self }
    }

    /// The CPU after `result` went where a shift puts it: into the
    /// accumulator where the mode is implied, else back to memory.
    pub open spec fn store_shifted_model(self, result: u8) -> Cpu6502 {
        if self.addressing_mode == AddressingMode::IMP {
            Cpu6502 { acc: result, ..self }
        } else {
            self.write_model(self.addr_abs, result)
        }
    }

    /// The CPU after a branch on `flag` being `wanted`. A branch that is
    /// taken costs a cycle and moves the program counter by the
    /// displacement; it costs one cycle more where the target lies in
    /// another page than the instruction after the branch.
    pub open spec fn branch_model(self, flag: CPUFlags, wanted: bool) -> Cpu6502 {
        if flag_of(self.status, flag) == wanted {
            let target = self.pc.wrapping_add(self.addr_rel);
            let taken = self.cycles.wrapping_add(1);
            Cpu6502 {
                cycles: taken.wrapping_add(page_change(self.pc, target)),
                addr_abs: target,
                pc: target,
                ..self
            }
        } else {
            self
        }
    }

    /// The CPU after a compare of `register` with its operand: C where the
    /// register is not below the operand, Z and N from their difference.
    pub open spec fn compare_model(self, register: u8) -> Cpu6502 {
        let difference = register.wrapping_sub(self.fetched);
        let carried = with_flag(self.status, CPUFlags::C, register >= self.fetched);
        Cpu6502 { temp: difference as u16, status: with_nz(carried, difference), ..self }
    }
}

fn set_nz_flags(cpu: &mut Cpu6502, reg: u8)
    ensures
        *final(cpu) == old(cpu).with_nz_model(reg),
{
    cpu.set_flag(CPUFlags::Z, reg == 0);
    cpu.set_flag(CPUFlags::N, reg & 0x80 != 0);
}

fn add_to_accumulator(cpu: &mut Cpu6502, operand: u8)
    ensures
        *final(cpu) == old(cpu).add_model(operand),
{
    let sum: u16 = cpu.acc as u16 + operand as u16 + cpu.get_flag(CPUFlags::C) as u16;
    let result: u8 = (sum % 256) as u8;
    cpu.temp = sum;
    cpu.set_flag(CPUFlags::V, (!(cpu.acc ^ operand) & (cpu.acc ^ result)) & 0x80 != 0);
    cpu.set_flag(CPUFlags::C, sum > 0xFF);
    set_nz_flags(cpu, result);
    cpu.acc = result;
}

fn store_shifted(cpu: &mut Cpu6502, result: u8)
    requires
        old(cpu).wf(),
    ensures
        *final(cpu) == old(cpu).store_shifted_model(result),
        final(cpu).wf(),
{
    if cpu.addressing_mode == AddressingMode::IMP {
        cpu.acc = result;
    } else {
        cpu.write_bus(cpu.addr_abs, result);
    }
}

fn branch(cpu: &mut Cpu6502, flag: CPUFlags, wanted: bool)
    ensures
        *final(cpu) == old(cpu).branch_model(flag, wanted),
{
    let up: bool = cpu.get_flag(flag) != 0;
    if up == wanted {
        cpu.cycles = cpu.cycles.wrapping_add(1);
        cpu.addr_abs = cpu.pc.wrapping_add(cpu.addr_rel);
        if cpu.addr_abs & 0xFF00 != cpu.pc & 0xFF00 {
            cpu.cycles = cpu.cycles.wrapping_add(1);
        }
        cpu.pc = cpu.addr_abs;
    }
}

fn compare(cpu: &mut Cpu6502, register: u8)
    ensures
        *final(cpu) == old(cpu).compare_model(register),
{
    let difference: u8 = register.wrapping_sub(cpu.fetched);
    cpu.temp = difference as u16;
    cpu.set_flag(CPUFlags::C, register >= cpu.fetched);
    set_nz_flags(cpu, difference);
}

impl Cpu6502 {
    /// Add with carry: A = A + M + C.
    #[verifier::opaque]
    pub open spec fn adc_model(self) -> Cpu6502 {
        self.fetch_model().add_model(self.fetch_model().fetched)
    }

    /// Bitwise and: A = A & M.
    #[verifier::opaque]
    pub open spec fn and_model(self) -> Cpu6502 {
        let fetched = self.fetch_model();
        Cpu6502 { acc: fetched.acc & fetched.fetched, ..fetched }.with_nz_model(
            fetched.acc & fetched.fetched,
        )
    }

    /// Arithmetic shift left: the operand doubles, and C takes the bit shifted out.
    #[verifier::opaque]
    pub open spec fn asl_model(self) -> Cpu6502 {
        let fetched = self.fetch_model();
        let shifted = (fetched.fetched * 2) as u16;
        let result = (shifted % 256) as u8;
        let carried = with_flag(fetched.status, CPUFlags::C, shifted > 0xFF);
        Cpu6502 {
            temp: shifted,
            status: with_nz(carried, result),
            ..fetched
        }.store_shifted_model(result)
    }

    /// Branch on carry clear.
    #[verifier::opaque]
    pub open spec fn bcc_model(self) -> Cpu6502 {
        self.branch_model(CPUFlags::C, false)
    }

    /// Branch on carry set.
    #[verifier::opaque]
    pub open spec fn bcs_model(self) -> Cpu6502 {
        self.branch_model(CPUFlags::C, true)
    }

    /// Branch on equal: Z set.
    #[verifier::opaque]
    pub open spec fn beq_model(self) -> Cpu6502 {
        self.branch_model(CPUFlags::Z, true)
    }

    /// Bit test: Z from A & M, N and V from bits 7 and 6 of M.
    #[verifier::opaque]
    pub open spec fn bit_model(self) -> Cpu6502 {
        let fetched = self.fetch_model();
        let masked = fetched.acc & fetched.fetched;
        let zero = with_flag(fetched.status, CPUFlags::Z, masked == 0);
        let negative = with_flag(zero, CPUFlags::N, fetched.fetched & 0x80 != 0);
        Cpu6502 {
            temp: masked as u16,
            status: with_flag(negative, CPUFlags::V, fetched.fetched & 0x40 != 0),
            ..fetched
        }
    }

    /// Branch on minus: N set.
    #[verifier::opaque]
    pub open spec fn bmi_model(self) -> Cpu6502 {
        self.branch_model(CPUFlags::N, true)
    }

    /// Branch on not equal: Z clear.
    #[verifier::opaque]
    pub open spec fn bne_model(self) -> Cpu6502 {
        self.branch_model(CPUFlags::Z, false)
    }

    /// Branch on plus: N clear.
    #[verifier::opaque]
    pub open spec fn bpl_model(self) -> Cpu6502 {
        self.branch_model(CPUFlags::N, false)
    }

    /// Break: the address of the byte after the next, and then P with B and U
/// up, go on the stack; I goes up, B down, and the program counter comes
/// from the vector at $FFFE.
    #[verifier::opaque]
    pub open spec fn brk_model(self) -> Cpu6502 {
        let pushed_pc = self.push_two_bytes_model(self.pc.wrapping_add(1));
        let pushed = pushed_pc.push_model(
            with_flag(with_flag(self.status, CPUFlags::B, true), CPUFlags::U, true),
        );
        let (read, target) = pushed.read_two_bytes_model(0xFFFE);
        Cpu6502 {
            pc: target,
            status: with_flag(with_flag(self.status, CPUFlags::B, false), CPUFlags::I, true),
            ..read
        }
    }

    /// Branch on overflow clear.
    #[verifier::opaque]
    pub open spec fn bvc_model(self) -> Cpu6502 {
        self.branch_model(CPUFlags::V, false)
    }

    /// Branch on overflow set.
    #[verifier::opaque]
    pub open spec fn bvs_model(self) -> Cpu6502 {
        self.branch_model(CPUFlags::V, true)
    }

    /// Clear carry.
    #[verifier::opaque]
    pub open spec fn clc_model(self) -> Cpu6502 {
        Cpu6502 { status: with_flag(self.status, CPUFlags::C, false), ..self }
    }

    /// Clear decimal mode.
    #[verifier::opaque]
    pub open spec fn cld_model(self) -> Cpu6502 {
        Cpu6502 { status: with_flag(self.status, CPUFlags::D, false), ..self }
    }

    /// Clear interrupt disable.
    #[verifier::opaque]
    pub open spec fn cli_model(self) -> Cpu6502 {
        Cpu6502 { status: with_flag(self.status, CPUFlags::I, false), ..self }
    }

    /// Clear overflow.
    #[verifier::opaque]
    pub open spec fn clv_model(self) -> Cpu6502 {
        Cpu6502 { status: with_flag(self.status, CPUFlags::V, false), ..self }
    }

    /// Compare the accumulator with memory.
    #[verifier::opaque]
    pub open spec fn cmp_model(self) -> Cpu6502 {
        self.fetch_model().compare_model(self.acc)
    }

    /// Compare X with memory.
    #[verifier::opaque]
    pub open spec fn cpx_model(self) -> Cpu6502 {
        self.fetch_model().compare_model(self.x_reg)
    }

    /// Compare Y with memory.
    #[verifier::opaque]
    pub open spec fn cpy_model(self) -> Cpu6502 {
        self.fetch_model().compare_model(self.y_reg)
    }

    /// Decrement memory.
    #[verifier::opaque]
    pub open spec fn dec_model(self) -> Cpu6502 {
        let fetched = self.fetch_model();
        let result = fetched.fetched.wrapping_sub(1);
        Cpu6502 { temp: result as u16, ..fetched }.write_model(
            fetched.addr_abs,
            result,
        ).with_nz_model(result)
    }

    /// Decrement X.
    #[verifier::opaque]
    pub open spec fn dex_model(self) -> Cpu6502 {
        Cpu6502 { x_reg: self.x_reg.wrapping_sub(1), ..self }.with_nz_model(self.x_reg.wrapping_sub(1))
    }

    /// Decrement Y.
    #[verifier::opaque]
    pub open spec fn dey_model(self) -> Cpu6502 {
        Cpu6502 { y_reg: self.y_reg.wrapping_sub(1), ..self }.with_nz_model(self.y_reg.wrapping_sub(1))
    }

    /// Bitwise exclusive or: A = A ^ M.
    #[verifier::opaque]
    pub open spec fn eor_model(self) -> Cpu6502 {
        let fetched = self.fetch_model();
        Cpu6502 { acc: fetched.acc ^ fetched.fetched, ..fetched }.with_nz_model(
            fetched.acc ^ fetched.fetched,
        )
    }

    /// Increment memory.
    #[verifier::opaque]
    pub open spec fn inc_model(self) -> Cpu6502 {
        let fetched = self.fetch_model();
        let result = fetched.fetched.wrapping_add(1);
        Cpu6502 { temp: result as u16, ..fetched }.write_model(
            fetched.addr_abs,
            result,
        ).with_nz_model(result)
    }

    /// Increment X.
    #[verifier::opaque]
    pub open spec fn inx_model(self) -> Cpu6502 {
        Cpu6502 { x_reg: self.x_reg.wrapping_add(1), ..self }.with_nz_model(self.x_reg.wrapping_add(1))
    }

    /// Increment Y.
    #[verifier::opaque]
    pub open spec fn iny_model(self) -> Cpu6502 {
        Cpu6502 { y_reg: self.y_reg.wrapping_add(1), ..self }.with_nz_model(self.y_reg.wrapping_add(1))
    }

    /// Jump: the program counter is the operand's address.
    #[verifier::opaque]
    pub open spec fn jmp_model(self) -> Cpu6502 {
        Cpu6502 { pc: self.addr_abs, ..self }
    }

    /// Jump to subroutine: the address of the last byte of the instruction
/// goes on the stack, high byte first, and the program counter is the
/// operand's address.
    #[verifier::opaque]
    pub open spec fn jsr_model(self) -> Cpu6502 {
        let pushed = self.push_two_bytes_model(self.pc.wrapping_sub(1));
        Cpu6502 { pc: self.addr_abs, ..pushed }
    }

    /// Load the accumulator.
    #[verifier::opaque]
    pub open spec fn lda_model(self) -> Cpu6502 {
        let fetched = self.fetch_model();
        Cpu6502 { acc: fetched.fetched, ..fetched }.with_nz_model(fetched.fetched)
    }

    /// Load X.
    #[verifier::opaque]
    pub open spec fn ldx_model(self) -> Cpu6502 {
        let fetched = self.fetch_model();
        Cpu6502 { x_reg: fetched.fetched, ..fetched }.with_nz_model(fetched.fetched)
    }

    /// Load Y.
    #[verifier::opaque]
    pub open spec fn ldy_model(self) -> Cpu6502 {
        let fetched = self.fetch_model();
        Cpu6502 { y_reg: fetched.fetched, ..fetched }.with_nz_model(fetched.fetched)
    }

    /// Logical shift right: the operand halves, and C takes the bit shifted out.
    #[verifier::opaque]
    pub open spec fn lsr_model(self) -> Cpu6502 {
        let fetched = self.fetch_model();
        let result = fetched.fetched / 2;
        let flagged = with_flag(with_nz(fetched.status, result), CPUFlags::C, fetched.fetched % 2 == 1);
        Cpu6502 { temp: result as u16, status: flagged, ..fetched }.store_shifted_model(result)
    }

    /// No operation.
    #[verifier::opaque]
    pub open spec fn nop_model(self) -> Cpu6502 {
        self
    }

    /// Bitwise or: A = A | M.
    #[verifier::opaque]
    pub open spec fn ora_model(self) -> Cpu6502 {
        let fetched = self.fetch_model();
        Cpu6502 { acc: fetched.acc | fetched.fetched, ..fetched }.with_nz_model(
            fetched.acc | fetched.fetched,
        )
    }

    /// Push the accumulator.
    #[verifier::opaque]
    pub open spec fn pha_model(self) -> Cpu6502 {
        self.push_model(self.acc)
    }

    /// Push P, with B and U up in the byte pushed.
    #[verifier::opaque]
    pub open spec fn php_model(self) -> Cpu6502 {
        self.push_model(
            with_flag(with_flag(self.status, CPUFlags::B, true), CPUFlags::U, true),
        )
    }

    /// Pull the accumulator.
    #[verifier::opaque]
    pub open spec fn pla_model(self) -> Cpu6502 {
        let (pulled, data) = self.pop_model();
        Cpu6502 { acc: data, ..pulled }.with_nz_model(data)
    }

    /// Pull P: U is up and B is down in what is kept.
    #[verifier::opaque]
    pub open spec fn plp_model(self) -> Cpu6502 {
        let (pulled, data) = self.pop_model();
        Cpu6502 {
            status: with_flag(with_flag(data, CPUFlags::U, true), CPUFlags::B, false),
            ..pulled
        }
    }

    /// Rotate left through the carry.
    #[verifier::opaque]
    pub open spec fn rol_model(self) -> Cpu6502 {
        let fetched = self.fetch_model();
        let rotated = (fetched.fetched * 2 + carry_in(fetched.status)) as u16;
        let result = (rotated % 256) as u8;
        let carried = with_flag(fetched.status, CPUFlags::C, rotated > 0xFF);
        Cpu6502 {
            temp: rotated,
            status: with_nz(carried, result),
            ..fetched
        }.store_shifted_model(result)
    }

    /// Rotate right through the carry.
    #[verifier::opaque]
    pub open spec fn ror_model(self) -> Cpu6502 {
        let fetched = self.fetch_model();
        let result = (fetched.fetched / 2 + carry_in(fetched.status) * 128) as u8;
        let carried = with_flag(fetched.status, CPUFlags::C, fetched.fetched % 2 == 1);
        Cpu6502 {
            temp: result as u16,
            status: with_nz(carried, result),
            ..fetched
        }.store_shifted_model(result)
    }

    /// Return from interrupt: P is pulled, with B down and U up in what is
/// kept, and then the program counter.
    #[verifier::opaque]
    pub open spec fn rti_model(self) -> Cpu6502 {
        let (pulled, data) = self.pop_model();
        let restored = Cpu6502 {
            status: with_flag(with_flag(data, CPUFlags::B, false), CPUFlags::U, true),
            ..pulled
        };
        let (returned, target) = restored.pop_two_bytes_model();
        Cpu6502 { pc: target, ..returned }
    }

    /// Return from subroutine: the program counter is pulled, and moves on by one.
    #[verifier::opaque]
    pub open spec fn rts_model(self) -> Cpu6502 {
        let (returned, target) = self.pop_two_bytes_model();
        Cpu6502 { pc: target.wrapping_add(1), ..returned }
    }

    /// Subtract with borrow: A = A + !M + C.
    #[verifier::opaque]
    pub open spec fn sbc_model(self) -> Cpu6502 {
        self.fetch_model().add_model(self.fetch_model().fetched ^ 0xFF)
    }

    /// Set carry.
    #[verifier::opaque]
    pub open spec fn sec_model(self) -> Cpu6502 {
        Cpu6502 { status: with_flag(self.status, CPUFlags::C, true), ..self }
    }

    /// Set decimal mode.
    #[verifier::opaque]
    pub open spec fn sed_model(self) -> Cpu6502 {
        Cpu6502 { status: with_flag(self.status, CPUFlags::D, true), ..self }
    }

    /// Set interrupt disable.
    #[verifier::opaque]
    pub open spec fn sei_model(self) -> Cpu6502 {
        Cpu6502 { status: with_flag(self.status, CPUFlags::I, true), ..self }
    }

    /// Store the accumulator.
    #[verifier::opaque]
    pub open spec fn sta_model(self) -> Cpu6502 {
        self.write_model(self.addr_abs, self.acc)
    }

    /// Store X.
    #[verifier::opaque]
    pub open spec fn stx_model(self) -> Cpu6502 {
        self.write_model(self.addr_abs, self.x_reg)
    }

    /// Store Y.
    #[verifier::opaque]
    pub open spec fn sty_model(self) -> Cpu6502 {
        self.write_model(self.addr_abs, self.y_reg)
    }

    /// Transfer the accumulator to X.
    #[verifier::opaque]
    pub open spec fn tax_model(self) -> Cpu6502 {
        Cpu6502 { x_reg: self.acc, ..self }.with_nz_model(self.acc)
    }

    /// Transfer the accumulator to Y.
    #[verifier::opaque]
    pub open spec fn tay_model(self) -> Cpu6502 {
        Cpu6502 { y_reg: self.acc, ..self }.with_nz_model(self.acc)
    }

    /// Transfer the stack pointer to X.
    #[verifier::opaque]
    pub open spec fn tsx_model(self) -> Cpu6502 {
        Cpu6502 { x_reg: self.stack_pointer, ..self }.with_nz_model(self.stack_pointer)
    }

    /// Transfer X to the accumulator.
    #[verifier::opaque]
    pub open spec fn txa_model(self) -> Cpu6502 {
        Cpu6502 { acc: self.x_reg, ..self }.with_nz_model(self.x_reg)
    }

    /// Transfer X to the stack pointer.
    #[verifier::opaque]
    pub open spec fn txs_model(self) -> Cpu6502 {
        Cpu6502 { stack_pointer: self.x_reg, ..self }
    }

    /// Transfer Y to the accumulator.
    #[verifier::opaque]
    pub open spec fn tya_model(self) -> Cpu6502 {
        Cpu6502 { acc: self.y_reg, ..self }.with_nz_model(self.y_reg)
    }

    /// An opcode outside the set: nothing happens.
    #[verifier::opaque]
    pub open spec fn xxx_model(self) -> Cpu6502 {
        self
    }

    /// The CPU after `operation` ran.
    #[verifier::opaque]
    pub open spec fn execute_model(self, operation: Operation) -> Cpu6502 {
        match operation {
            Operation::ADC => self.adc_model(),
            Operation::AND => self.and_model(),
            Operation::ASL => self.asl_model(),
            Operation::BCC => self.bcc_model(),
            Operation::BCS => self.bcs_model(),
            Operation::BEQ => self.beq_model(),
            Operation::BIT => self.bit_model(),
            Operation::BMI => self.bmi_model(),
            Operation::BNE => self.bne_model(),
            Operation::BPL => self.bpl_model(),
            Operation::BRK => self.brk_model(),
            Operation::BVC => self.bvc_model(),
            Operation::BVS => self.bvs_model(),
            Operation::CLC => self.clc_model(),
            Operation::CLD => self.cld_model(),
            Operation::CLI => self.cli_model(),
            Operation::CLV => self.clv_model(),
            Operation::CMP => self.cmp_model(),
            Operation::CPX => self.cpx_model(),
            Operation::CPY => self.cpy_model(),
            Operation::DEC => self.dec_model(),
            Operation::DEX => self.dex_model(),
            Operation::DEY => self.dey_model(),
            Operation::EOR => self.eor_model(),
            Operation::INC => self.inc_model(),
            Operation::INX => self.inx_model(),
            Operation::INY => self.iny_model(),
            Operation::JMP => self.jmp_model(),
            Operation::JSR => self.jsr_model(),
            Operation::LDA => self.lda_model(),
            Operation::LDX => self.ldx_model(),
            Operation::LDY => self.ldy_model(),
            Operation::LSR => self.lsr_model(),
            Operation::NOP => self.nop_model(),
            Operation::ORA => self.ora_model(),
            Operation::PHA => self.pha_model(),
            Operation::PHP => self.php_model(),
            Operation::PLA => self.pla_model(),
            Operation::PLP => self.plp_model(),
            Operation::ROL => self.rol_model(),
            Operation::ROR => self.ror_model(),
            Operation::RTI => self.rti_model(),
            Operation::RTS => self.rts_model(),
            Operation::SBC => self.sbc_model(),
            Operation::SEC => self.sec_model(),
            Operation::SED => self.sed_model(),
            Operation::SEI => self.sei_model(),
            Operation::STA => self.sta_model(),
            Operation::STX => self.stx_model(),
            Operation::STY => self.sty_model(),
            Operation::TAX => self.tax_model(),
            Operation::TAY => self.tay_model(),
            Operation::TSX => self.tsx_model(),
            Operation::TXA => self.txa_model(),
            Operation::TXS => self.txs_model(),
            Operation::TYA => self.tya_model(),
            Operation::XXX => self.xxx_model(),
        }
    }
}

#[allow(non_snake_case)]
pub fn ADC(cpu: &mut Cpu6502)
    requires
        old(cpu).wf(),
    ensures
        *final(cpu) == old(cpu).adc_model(),
        final(cpu).wf(),
{
    proof {
        reveal(Cpu6502::adc_model);
    }
    let operand: u8 = cpu.fetch();
    add_to_accumulator(cpu, operand);
}

#[allow(non_snake_case)]
pub fn AND(cpu: &mut Cpu6502)
    requires
        old(cpu).wf(),
    ensures
        *final(cpu) == old(cpu).and_model(),
        final(cpu).wf(),
{
    proof {
        reveal(Cpu6502::and_model);
    }
    cpu.fetch();
    cpu.acc = cpu.acc & cpu.fetched;
    set_nz_flags(cpu, cpu.acc);
}

#[allow(non_snake_case)]
pub fn ASL(cpu: &mut Cpu6502)
    requires
        old(cpu).wf(),
    ensures
        *final(cpu) == old(cpu).asl_model(),
        final(cpu).wf(),
{
    proof {
        reveal(Cpu6502::asl_model);
    }
    cpu.fetch();
    cpu.temp = cpu.fetched as u16 * 2;
    let result: u8 = (cpu.temp % 256) as u8;
    cpu.set_flag(CPUFlags::C, cpu.temp > 0xFF);
    set_nz_flags(cpu, result);
    store_shifted(cpu, result);
}

#[allow(non_snake_case)]
pub fn BCC(cpu: &mut Cpu6502)
    requires
        old(cpu).wf(),
    ensures
        *final(cpu) == old(cpu).bcc_model(),
        final(cpu).wf(),
{
    proof {
        reveal(Cpu6502::bcc_model);
    }
    branch(cpu, CPUFlags::C, false);
}

#[allow(non_snake_case)]
pub fn BCS(cpu: &mut Cpu6502)
    requires
        old(cpu).wf(),
    ensures
        *final(cpu) == old(cpu).bcs_model(),
        final(cpu).wf(),
{
    proof {
        reveal(Cpu6502::bcs_model);
    }
    branch(cpu, CPUFlags::C, true);
}

#[allow(non_snake_case)]
pub fn BEQ(cpu: &mut Cpu6502)
    requires
        old(cpu).wf(),
    ensures
        *final(cpu) == old(cpu).beq_model(),
        final(cpu).wf(),
{
    proof {
        reveal(Cpu6502::beq_model);
    }
    branch(cpu, CPUFlags::Z, true);
}

#[allow(non_snake_case)]
pub fn BIT(cpu: &mut Cpu6502)
    requires
        old(cpu).wf(),
    ensures
        *final(cpu) == old(cpu).bit_model(),
        final(cpu).wf(),
{
    proof {
        reveal(Cpu6502::bit_model);
    }
    cpu.fetch();
    let masked: u8 = cpu.acc & cpu.fetched;
    cpu.temp = masked as u16;
    cpu.set_flag(CPUFlags::Z, masked == 0x00);
    cpu.set_flag(CPUFlags::N, cpu.fetched & 0x80 != 0);
    cpu.set_flag(CPUFlags::V, cpu.fetched & 0x40 != 0);
}

#[allow(non_snake_case)]
pub fn BMI(cpu: &mut Cpu6502)
    requires
        old(cpu).wf(),
    ensures
        *final(cpu) == old(cpu).bmi_model(),
        final(cpu).wf(),
{
    proof {
        reveal(Cpu6502::bmi_model);
    }
    branch(cpu, CPUFlags::N, true);
}

#[allow(non_snake_case)]
pub fn BNE(cpu: &mut Cpu6502)
    requires
        old(cpu).wf(),
    ensures
        *final(cpu) == old(cpu).bne_model(),
        final(cpu).wf(),
{
    proof {
        reveal(Cpu6502::bne_model);
    }
    branch(cpu, CPUFlags::Z, false);
}

#[allow(non_snake_case)]
pub fn BPL(cpu: &mut Cpu6502)
    requires
        old(cpu).wf(),
    ensures
        *final(cpu) == old(cpu).bpl_model(),
        final(cpu).wf(),
{
    proof {
        reveal(Cpu6502::bpl_model);
    }
    branch(cpu, CPUFlags::N, false);
}

#[allow(non_snake_case)]
#[verifier::rlimit(50)]
pub fn BRK(cpu: &mut Cpu6502)
    requires
        old(cpu).wf(),
    ensures
        *final(cpu) == old(cpu).brk_model(),
        final(cpu).wf(),
{
    proof {
        reveal(Cpu6502::brk_model);
    }
    cpu.pc = cpu.pc.wrapping_add(1);
    cpu.write_bus_two_bytes(cpu.pc);
    cpu.push(cpu.status | CPUFlags::B.bits() | CPUFlags::U.bits());
    cpu.set_flag(CPUFlags::B, false);
    cpu.set_flag(CPUFlags::I, true);
    cpu.pc = cpu.read_bus_two_bytes(0xFFFE);
}

#[allow(non_snake_case)]
pub fn BVC(cpu: &mut Cpu6502)
    requires
        old(cpu).wf(),
    ensures
        *final(cpu) == old(cpu).bvc_model(),
        final(cpu).wf(),
{
    proof {
        reveal(Cpu6502::bvc_model);
    }
    branch(cpu, CPUFlags::V, false);
}

#[allow(non_snake_case)]
pub fn BVS(cpu: &mut Cpu6502)
    requires
        old(cpu).wf(),
    ensures
        *final(cpu) == old(cpu).bvs_model(),
        final(cpu).wf(),
{
    proof {
        reveal(Cpu6502::bvs_model);
    }
    branch(cpu, CPUFlags::V, true);
}

#[allow(non_snake_case)]
pub fn CLC(cpu: &mut Cpu6502)
    requires
        old(cpu).wf(),
    ensures
        *final(cpu) == old(cpu).clc_model(),
        final(cpu).wf(),
{
    proof {
        reveal(Cpu6502::clc_model);
    }
    cpu.set_flag(CPUFlags::C, false);
}

#[allow(non_snake_case)]
pub fn CLD(cpu: &mut Cpu6502)
    requires
        old(cpu).wf(),
    ensures
        *final(cpu) == old(cpu).cld_model(),
        final(cpu).wf(),
{
    proof {
        reveal(Cpu6502::cld_model);
    }
    cpu.set_flag(CPUFlags::D, false);
}

#[allow(non_snake_case)]
pub fn CLI(cpu: &mut Cpu6502)
    requires
        old(cpu).wf(),
    ensures
        *final(cpu) == old(cpu).cli_model(),
        final(cpu).wf(),
{
    proof {
        reveal(Cpu6502::cli_model);
    }
    cpu.set_flag(CPUFlags::I, false);
}

#[allow(non_snake_case)]
pub fn CLV(cpu: &mut Cpu6502)
    requires
        old(cpu).wf(),
    ensures
        *final(cpu) == old(cpu).clv_model(),
        final(cpu).wf(),
{
    proof {
        reveal(Cpu6502::clv_model);
    }
    cpu.set_flag(CPUFlags::V, false);
}

#[allow(non_snake_case)]
pub fn CMP(cpu: &mut Cpu6502)
    requires
        old(cpu).wf(),
    ensures
        *final(cpu) == old(cpu).cmp_model(),
        final(cpu).wf(),
{
    proof {
        reveal(Cpu6502::cmp_model);
    }
    cpu.fetch();
    compare(cpu, cpu.acc);
}

#[allow(non_snake_case)]
pub fn CPX(cpu: &mut Cpu6502)
    requires
        old(cpu).wf(),
    ensures
        *final(cpu) == old(cpu).cpx_model(),
        final(cpu).wf(),
{
    proof {
        reveal(Cpu6502::cpx_model);
    }
    cpu.fetch();
    compare(cpu, cpu.x_reg);
}

#[allow(non_snake_case)]
pub fn CPY(cpu: &mut Cpu6502)
    requires
        old(cpu).wf(),
    ensures
        *final(cpu) == old(cpu).cpy_model(),
        final(cpu).wf(),
{
    proof {
        reveal(Cpu6502::cpy_model);
    }
    cpu.fetch();
    compare(cpu, cpu.y_reg);
}

#[allow(non_snake_case)]
pub fn DEC(cpu: &mut Cpu6502)
    requires
        old(cpu).wf(),
    ensures
        *final(cpu) == old(cpu).dec_model(),
        final(cpu).wf(),
{
    proof {
        reveal(Cpu6502::dec_model);
    }
    cpu.fetch();
    let x: u8 = cpu.fetched.wrapping_sub(1);
    cpu.temp = x as u16;
    cpu.write_bus(cpu.addr_abs, x);
    set_nz_flags(cpu, x);
}

#[allow(non_snake_case)]
pub fn DEX(cpu: &mut Cpu6502)
    requires
        old(cpu).wf(),
    ensures
        *final(cpu) == old(cpu).dex_model(),
        final(cpu).wf(),
{
    proof {
        reveal(Cpu6502::dex_model);
    }
    cpu.x_reg = cpu.x_reg.wrapping_sub(1);
    set_nz_flags(cpu, cpu.x_reg);
}

#[allow(non_snake_case)]
pub fn DEY(cpu: &mut Cpu6502)
    requires
        old(cpu).wf(),
    ensures
        *final(cpu) == old(cpu).dey_model(),
        final(cpu).wf(),
{
    proof {
        reveal(Cpu6502::dey_model);
    }
    cpu.y_reg = cpu.y_reg.wrapping_sub(1);
    set_nz_flags(cpu, cpu.y_reg);
}

#[allow(non_snake_case)]
pub fn EOR(cpu: &mut Cpu6502)
    requires
        old(cpu).wf(),
    ensures
        *final(cpu) == old(cpu).eor_model(),
        final(cpu).wf(),
{
    proof {
        reveal(Cpu6502::eor_model);
    }
    cpu.fetch();
    cpu.acc = cpu.acc ^ cpu.fetched;
    set_nz_flags(cpu, cpu.acc);
}

#[allow(non_snake_case)]
pub fn INC(cpu: &mut Cpu6502)
    requires
        old(cpu).wf(),
    ensures
        *final(cpu) == old(cpu).inc_model(),
        final(cpu).wf(),
{
    proof {
        reveal(Cpu6502::inc_model);
    }
    cpu.fetch();
    let x: u8 = cpu.fetched.wrapping_add(1);
    cpu.temp = x as u16;
    cpu.write_bus(cpu.addr_abs, x);
    set_nz_flags(cpu, x);
}

#[allow(non_snake_case)]
pub fn INX(cpu: &mut Cpu6502)
    requires
        old(cpu).wf(),
    ensures
        *final(cpu) == old(cpu).inx_model(),
        final(cpu).wf(),
{
    proof {
        reveal(Cpu6502::inx_model);
    }
    cpu.x_reg = cpu.x_reg.wrapping_add(1);
    set_nz_flags(cpu, cpu.x_reg);
}

#[allow(non_snake_case)]
pub fn INY(cpu: &mut Cpu6502)
    requires
        old(cpu).wf(),
    ensures
        *final(cpu) == old(cpu).iny_model(),
        final(cpu).wf(),
{
    proof {
        reveal(Cpu6502::iny_model);
    }
    cpu.y_reg = cpu.y_reg.wrapping_add(1);
    set_nz_flags(cpu, cpu.y_reg);
}

#[allow(non_snake_case)]
pub fn JMP(cpu: &mut Cpu6502)
    requires
        old(cpu).wf(),
    ensures
        *final(cpu) == old(cpu).jmp_model(),
        final(cpu).wf(),
{
    proof {
        reveal(Cpu6502::jmp_model);
    }
    cpu.pc = cpu.addr_abs;
}

#[allow(non_snake_case)]
pub fn JSR(cpu: &mut Cpu6502)
    requires
        old(cpu).wf(),
    ensures
        *final(cpu) == old(cpu).jsr_model(),
        final(cpu).wf(),
{
    proof {
        reveal(Cpu6502::jsr_model);
    }
    cpu.pc = cpu.pc.wrapping_sub(1);
    cpu.write_bus_two_bytes(cpu.pc);
    cpu.pc = cpu.addr_abs;
}

#[allow(non_snake_case)]
pub fn LDA(cpu: &mut Cpu6502)
    requires
        old(cpu).wf(),
    ensures
        *final(cpu) == old(cpu).lda_model(),
        final(cpu).wf(),
{
    proof {
        reveal(Cpu6502::lda_model);
    }
    cpu.fetch();
    cpu.acc = cpu.fetched;
    set_nz_flags(cpu, cpu.acc);
}

#[allow(non_snake_case)]
pub fn LDX(cpu: &mut Cpu6502)
    requires
        old(cpu).wf(),
    ensures
        *final(cpu) == old(cpu).ldx_model(),
        final(cpu).wf(),
{
    proof {
        reveal(Cpu6502::ldx_model);
    }
    cpu.fetch();
    cpu.x_reg = cpu.fetched;
    set_nz_flags(cpu, cpu.x_reg);
}

#[allow(non_snake_case)]
pub fn LDY(cpu: &mut Cpu6502)
    requires
        old(cpu).wf(),
    ensures
        *final(cpu) == old(cpu).ldy_model(),
        final(cpu).wf(),
{
    proof {
        reveal(Cpu6502::ldy_model);
    }
    cpu.fetch();
    cpu.y_reg = cpu.fetched;
    set_nz_flags(cpu, cpu.y_reg);
}

#[allow(non_snake_case)]
pub fn LSR(cpu: &mut Cpu6502)
    requires
        old(cpu).wf(),
    ensures
        *final(cpu) == old(cpu).lsr_model(),
        final(cpu).wf(),
{
    proof {
        reveal(Cpu6502::lsr_model);
    }
    cpu.fetch();
    let result: u8 = cpu.fetched / 2;
    cpu.temp = result as u16;
    set_nz_flags(cpu, result);
    cpu.set_flag(CPUFlags::C, cpu.fetched % 2 == 1);
    store_shifted(cpu, result);
}

#[allow(non_snake_case)]
pub fn NOP(cpu: &mut Cpu6502)
    requires
        old(cpu).wf(),
    ensures
        *final(cpu) == old(cpu).nop_model(),
        final(cpu).wf(),
{
    proof {
        reveal(Cpu6502::nop_model);
    }
}

#[allow(non_snake_case)]
pub fn ORA(cpu: &mut Cpu6502)
    requires
        old(cpu).wf(),
    ensures
        *final(cpu) == old(cpu).ora_model(),
        final(cpu).wf(),
{
    proof {
        reveal(Cpu6502::ora_model);
    }
    cpu.fetch();
    cpu.acc = cpu.acc | cpu.fetched;
    set_nz_flags(cpu, cpu.acc);
}

#[allow(non_snake_case)]
pub fn PHA(cpu: &mut Cpu6502)
    requires
        old(cpu).wf(),
    ensures
        *final(cpu) == old(cpu).pha_model(),
        final(cpu).wf(),
{
    proof {
        reveal(Cpu6502::pha_model);
    }
    cpu.push(cpu.acc);
}

#[allow(non_snake_case)]
pub fn PHP(cpu: &mut Cpu6502)
    requires
        old(cpu).wf(),
    ensures
        *final(cpu) == old(cpu).php_model(),
        final(cpu).wf(),
{
    proof {
        reveal(Cpu6502::php_model);
    }
    cpu.push(cpu.status | CPUFlags::B.bits() | CPUFlags::U.bits());
}

#[allow(non_snake_case)]
pub fn PLA(cpu: &mut Cpu6502)
    requires
        old(cpu).wf(),
    ensures
        *final(cpu) == old(cpu).pla_model(),
        final(cpu).wf(),
{
    proof {
        reveal(Cpu6502::pla_model);
    }
    cpu.acc = cpu.pop();
    set_nz_flags(cpu, cpu.acc);
}

#[allow(non_snake_case)]
pub fn PLP(cpu: &mut Cpu6502)
    requires
        old(cpu).wf(),
    ensures
        *final(cpu) == old(cpu).plp_model(),
        final(cpu).wf(),
{
    proof {
        reveal(Cpu6502::plp_model);
    }
    cpu.status = cpu.pop();
    cpu.set_flag(CPUFlags::U, true);
    cpu.set_flag(CPUFlags::B, false);
}

#[allow(non_snake_case)]
pub fn ROL(cpu: &mut Cpu6502)
    requires
        old(cpu).wf(),
    ensures
        *final(cpu) == old(cpu).rol_model(),
        final(cpu).wf(),
{
    proof {
        reveal(Cpu6502::rol_model);
    }
    cpu.fetch();
    cpu.temp = cpu.fetched as u16 * 2 + cpu.get_flag(CPUFlags::C) as u16;
    let result: u8 = (cpu.temp % 256) as u8;
    cpu.set_flag(CPUFlags::C, cpu.temp > 0xFF);
    set_nz_flags(cpu, result);
    store_shifted(cpu, result);
}

#[allow(non_snake_case)]
pub fn ROR(cpu: &mut Cpu6502)
    requires
        old(cpu).wf(),
    ensures
        *final(cpu) == old(cpu).ror_model(),
        final(cpu).wf(),
{
    proof {
        reveal(Cpu6502::ror_model);
    }
    cpu.fetch();
    let result: u8 = cpu.fetched / 2 + cpu.get_flag(CPUFlags::C) * 128;
    cpu.temp = result as u16;
    cpu.set_flag(CPUFlags::C, cpu.fetched % 2 == 1);
    set_nz_flags(cpu, result);
    store_shifted(cpu, result);
}

#[allow(non_snake_case)]
#[verifier::rlimit(50)]
pub fn RTI(cpu: &mut Cpu6502)
    requires
        old(cpu).wf(),
    ensures
        *final(cpu) == old(cpu).rti_model(),
        final(cpu).wf(),
{
    proof {
        reveal(Cpu6502::rti_model);
    }
    cpu.status = cpu.pop();
    cpu.set_flag(CPUFlags::B, false);
    cpu.set_flag(CPUFlags::U, true);
    cpu.pc = cpu.pop_two_bytes();
}

#[allow(non_snake_case)]
pub fn RTS(cpu: &mut Cpu6502)
    requires
        old(cpu).wf(),
    ensures
        *final(cpu) == old(cpu).rts_model(),
        final(cpu).wf(),
{
    proof {
        reveal(Cpu6502::rts_model);
    }
    let target: u16 = cpu.pop_two_bytes();
    cpu.pc = target.wrapping_add(1);
}

#[allow(non_snake_case)]
pub fn SBC(cpu: &mut Cpu6502)
    requires
        old(cpu).wf(),
    ensures
        *final(cpu) == old(cpu).sbc_model(),
        final(cpu).wf(),
{
    proof {
        reveal(Cpu6502::sbc_model);
    }
    let operand: u8 = cpu.fetch();
    add_to_accumulator(cpu, operand ^ 0xFF);
}

#[allow(non_snake_case)]
pub fn SEC(cpu: &mut Cpu6502)
    requires
        old(cpu).wf(),
    ensures
        *final(cpu) == old(cpu).sec_model(),
        final(cpu).wf(),
{
    proof {
        reveal(Cpu6502::sec_model);
    }
    cpu.set_flag(CPUFlags::C, true);
}

#[allow(non_snake_case)]
pub fn SED(cpu: &mut Cpu6502)
    requires
        old(cpu).wf(),
    ensures
        *final(cpu) == old(cpu).sed_model(),
        final(cpu).wf(),
{
    proof {
        reveal(Cpu6502::sed_model);
    }
    cpu.set_flag(CPUFlags::D, true);
}

#[allow(non_snake_case)]
pub fn SEI(cpu: &mut Cpu6502)
    requires
        old(cpu).wf(),
    ensures
        *final(cpu) == old(cpu).sei_model(),
        final(cpu).wf(),
{
    proof {
        reveal(Cpu6502::sei_model);
    }
    cpu.set_flag(CPUFlags::I, true);
}

#[allow(non_snake_case)]
pub fn STA(cpu: &mut Cpu6502)
    requires
        old(cpu).wf(),
    ensures
        *final(cpu) == old(cpu).sta_model(),
        final(cpu).wf(),
{
    proof {
        reveal(Cpu6502::sta_model);
    }
    cpu.write_bus(cpu.addr_abs, cpu.acc);
}

#[allow(non_snake_case)]
pub fn STX(cpu: &mut Cpu6502)
    requires
        old(cpu).wf(),
    ensures
        *final(cpu) == old(cpu).stx_model(),
        final(cpu).wf(),
{
    proof {
        reveal(Cpu6502::stx_model);
    }
    cpu.write_bus(cpu.addr_abs, cpu.x_reg);
}

#[allow(non_snake_case)]
pub fn STY(cpu: &mut Cpu6502)
    requires
        old(cpu).wf(),
    ensures
        *final(cpu) == old(cpu).sty_model(),
        final(cpu).wf(),
{
    proof {
        reveal(Cpu6502::sty_model);
    }
    cpu.write_bus(cpu.addr_abs, cpu.y_reg);
}

#[allow(non_snake_case)]
pub fn TAX(cpu: &mut Cpu6502)
    requires
        old(cpu).wf(),
    ensures
        *final(cpu) == old(cpu).tax_model(),
        final(cpu).wf(),
{
    proof {
        reveal(Cpu6502::tax_model);
    }
    cpu.x_reg = cpu.acc;
    set_nz_flags(cpu, cpu.x_reg);
}

#[allow(non_snake_case)]
pub fn TAY(cpu: &mut Cpu6502)
    requires
        old(cpu).wf(),
    ensures
        *final(cpu) == old(cpu).tay_model(),
        final(cpu).wf(),
{
    proof {
        reveal(Cpu6502::tay_model);
    }
    cpu.y_reg = cpu.acc;
    set_nz_flags(cpu, cpu.y_reg);
}

#[allow(non_snake_case)]
pub fn TSX(cpu: &mut Cpu6502)
    requires
        old(cpu).wf(),
    ensures
        *final(cpu) == old(cpu).tsx_model(),
        final(cpu).wf(),
{
    proof {
        reveal(Cpu6502::tsx_model);
    }
    cpu.x_reg = cpu.stack_pointer;
    set_nz_flags(cpu, cpu.x_reg);
}

#[allow(non_snake_case)]
pub fn TXA(cpu: &mut Cpu6502)
    requires
        old(cpu).wf(),
    ensures
        *final(cpu) == old(cpu).txa_model(),
        final(cpu).wf(),
{
    proof {
        reveal(Cpu6502::txa_model);
    }
    cpu.acc = cpu.x_reg;
    set_nz_flags(cpu, cpu.acc);
}

#[allow(non_snake_case)]
pub fn TXS(cpu: &mut Cpu6502)
    requires
        old(cpu).wf(),
    ensures
        *final(cpu) == old(cpu).txs_model(),
        final(cpu).wf(),
{
    proof {
        reveal(Cpu6502::txs_model);
    }
    cpu.stack_pointer = cpu.x_reg;
}

#[allow(non_snake_case)]
pub fn TYA(cpu: &mut Cpu6502)
    requires
        old(cpu).wf(),
    ensures
        *final(cpu) == old(cpu).tya_model(),
        final(cpu).wf(),
{
    proof {
        reveal(Cpu6502::tya_model);
    }
    cpu.acc = cpu.y_reg;
    set_nz_flags(cpu, cpu.acc);
}

#[allow(non_snake_case)]
pub fn XXX(cpu: &mut Cpu6502)
    requires
        old(cpu).wf(),
    ensures
        *final(cpu) == old(cpu).xxx_model(),
        final(cpu).wf(),
{
    proof {
        reveal(Cpu6502::xxx_model);
    }
}

/// Runs `operation` on the CPU.
#[verifier::rlimit(50)]
pub fn execute(operation: Operation, cpu: &mut Cpu6502)
    requires
        old(cpu).wf(),
    ensures
        *final(cpu) == old(cpu).execute_model(operation),
        final(cpu).wf(),
{
    proof {
        reveal(Cpu6502::execute_model);
    }
    match operation {
        Operation::ADC => ADC(cpu),
        Operation::AND => AND(cpu),
        Operation::ASL => ASL(cpu),
        Operation::BCC => BCC(cpu),
        Operation::BCS => BCS(cpu),
        Operation::BEQ => BEQ(cpu),
        Operation::BIT => BIT(cpu),
        Operation::BMI => BMI(cpu),
        Operation::BNE => BNE(cpu),
        Operation::BPL => BPL(cpu),
        Operation::BRK => BRK(cpu),
        Operation::BVC => BVC(cpu),
        Operation::BVS => BVS(cpu),
        Operation::CLC => CLC(cpu),
        Operation::CLD => CLD(cpu),
        Operation::CLI => CLI(cpu),
        Operation::CLV => CLV(cpu),
        Operation::CMP => CMP(cpu),
        Operation::CPX => CPX(cpu),
        Operation::CPY => CPY(cpu),
        Operation::DEC => DEC(cpu),
        Operation::DEX => DEX(cpu),
        Operation::DEY => DEY(cpu),
        Operation::EOR => EOR(cpu),
        Operation::INC => INC(cpu),
        Operation::INX => INX(cpu),
        Operation::INY => INY(cpu),
        Operation::JMP => JMP(cpu),
        Operation::JSR => JSR(cpu),
        Operation::LDA => LDA(cpu),
        Operation::LDX => LDX(cpu),
        Operation::LDY => LDY(cpu),
        Operation::LSR => LSR(cpu),
        Operation::NOP => NOP(cpu),
        Operation::ORA => ORA(cpu),
        Operation::PHA => PHA(cpu),
        Operation::PHP => PHP(cpu),
        Operation::PLA => PLA(cpu),
        Operation::PLP => PLP(cpu),
        Operation::ROL => ROL(cpu),
        Operation::ROR => ROR(cpu),
        Operation::RTI => RTI(cpu),
        Operation::RTS => RTS(cpu),
        Operation::SBC => SBC(cpu),
        Operation::SEC => SEC(cpu),
        Operation::SED => SED(cpu),
        Operation::SEI => SEI(cpu),
        Operation::STA => STA(cpu),
        Operation::STX => STX(cpu),
        Operation::STY => STY(cpu),
        Operation::TAX => TAX(cpu),
        Operation::TAY => TAY(cpu),
        Operation::TSX => TSX(cpu),
        Operation::TXA => TXA(cpu),
        Operation::TXS => TXS(cpu),
        Operation::TYA => TYA(cpu),
        Operation::XXX => XXX(cpu),
    }
}

} // verus!
