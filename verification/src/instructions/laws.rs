//! Laws of the instruction set: where the program counter goes.

use crate::cpu::{flag_of, CPUFlags, Cpu6502};
use crate::instructions::instruction::{operand_bytes, Operation};
use crate::instructions::instruction_functions::signed_overflow;
use crate::instructions::instruction_table::instruction_table::instruction_model;
use vstd::prelude::*;

verus! {

/// The flag a branch looks at and the state it branches on, for the eight
/// branches.
pub open spec fn branch_condition(operation: Operation) -> Option<(CPUFlags, bool)> {
    match operation {
        Operation::BCC => Some((CPUFlags::C, false)),
        Operation::BCS => Some((CPUFlags::C, true)),
        Operation::BEQ => Some((CPUFlags::Z, true)),
        Operation::BNE => Some((CPUFlags::Z, false)),
        Operation::BMI => Some((CPUFlags::N, true)),
        Operation::BPL => Some((CPUFlags::N, false)),
        Operation::BVC => Some((CPUFlags::V, false)),
        Operation::BVS => Some((CPUFlags::V, true)),
        _ => None,
    }
}

/// Whether `operation` is one of the eight branches.
pub open spec fn is_branch(operation: Operation) -> bool {
    branch_condition(operation) is Some
}

/// Whether a branch is taken with the flags as `status` has them.
pub open spec fn branch_taken(operation: Operation, status: u8) -> bool {
    match branch_condition(operation) {
        Some((flag, wanted)) => flag_of(status, flag) == wanted,
        None => false,
    }
}

/// Whether `operation` is a jump, a call, a return or a break: one that
/// sets the program counter whatever the flags are.
pub open spec fn is_jump(operation: Operation) -> bool {
    operation == Operation::JMP || operation == Operation::JSR || operation == Operation::RTS
        || operation == Operation::RTI || operation == Operation::BRK
}

/// The addressing mode moves the program counter past the operand and
/// leaves the flags and the instruction in work.
pub proof fn lemma_addressing_moves_pc(cpu: Cpu6502)
    ensures
        cpu.addressing_model().0.pc == (cpu.pc + operand_bytes(cpu.instruction.addr_mode)) % 0x10000,
        cpu.addressing_model().0.status == cpu.status,
        cpu.addressing_model().0.instruction == cpu.instruction,
{
    reveal(Cpu6502::addressing_model);
}

#[verifier::rlimit(50)]
proof fn lemma_first_lot_keeps_pc(cpu: Cpu6502)
    ensures
        cpu.adc_model().pc == cpu.pc,
        cpu.adc_model().cycles == cpu.cycles,
        cpu.and_model().pc == cpu.pc,
        cpu.and_model().cycles == cpu.cycles,
        cpu.asl_model().pc == cpu.pc,
        cpu.asl_model().cycles == cpu.cycles,
        cpu.bit_model().pc == cpu.pc,
        cpu.bit_model().cycles == cpu.cycles,
        cpu.clc_model().pc == cpu.pc,
        cpu.clc_model().cycles == cpu.cycles,
        cpu.cld_model().pc == cpu.pc,
        cpu.cld_model().cycles == cpu.cycles,
        cpu.cli_model().pc == cpu.pc,
        cpu.cli_model().cycles == cpu.cycles,
        cpu.clv_model().pc == cpu.pc,
        cpu.clv_model().cycles == cpu.cycles,
{
    reveal(Cpu6502::adc_model);
    reveal(Cpu6502::and_model);
    reveal(Cpu6502::asl_model);
    reveal(Cpu6502::bit_model);
    reveal(Cpu6502::clc_model);
    reveal(Cpu6502::cld_model);
    reveal(Cpu6502::cli_model);
    reveal(Cpu6502::clv_model);
}

#[verifier::rlimit(50)]
proof fn lemma_second_lot_keeps_pc(cpu: Cpu6502)
    ensures
        cpu.cmp_model().pc == cpu.pc,
        cpu.cmp_model().cycles == cpu.cycles,
        cpu.cpx_model().pc == cpu.pc,
        cpu.cpx_model().cycles == cpu.cycles,
        cpu.cpy_model().pc == cpu.pc,
        cpu.cpy_model().cycles == cpu.cycles,
        cpu.dec_model().pc == cpu.pc,
        cpu.dec_model().cycles == cpu.cycles,
        cpu.dex_model().pc == cpu.pc,
        cpu.dex_model().cycles == cpu.cycles,
        cpu.dey_model().pc == cpu.pc,
        cpu.dey_model().cycles == cpu.cycles,
        cpu.eor_model().pc == cpu.pc,
        cpu.eor_model().cycles == cpu.cycles,
        cpu.inc_model().pc == cpu.pc,
        cpu.inc_model().cycles == cpu.cycles,
{
    reveal(Cpu6502::cmp_model);
    reveal(Cpu6502::cpx_model);
    reveal(Cpu6502::cpy_model);
    reveal(Cpu6502::dec_model);
    reveal(Cpu6502::dex_model);
    reveal(Cpu6502::dey_model);
    reveal(Cpu6502::eor_model);
    reveal(Cpu6502::inc_model);
}

#[verifier::rlimit(50)]
proof fn lemma_third_lot_keeps_pc(cpu: Cpu6502)
    ensures
        cpu.inx_model().pc == cpu.pc,
        cpu.inx_model().cycles == cpu.cycles,
        cpu.iny_model().pc == cpu.pc,
        cpu.iny_model().cycles == cpu.cycles,
        cpu.lda_model().pc == cpu.pc,
        cpu.lda_model().cycles == cpu.cycles,
        cpu.ldx_model().pc == cpu.pc,
        cpu.ldx_model().cycles == cpu.cycles,
        cpu.ldy_model().pc == cpu.pc,
        cpu.ldy_model().cycles == cpu.cycles,
        cpu.lsr_model().pc == cpu.pc,
        cpu.lsr_model().cycles == cpu.cycles,
        cpu.nop_model().pc == cpu.pc,
        cpu.nop_model().cycles == cpu.cycles,
        cpu.ora_model().pc == cpu.pc,
        cpu.ora_model().cycles == cpu.cycles,
{
    reveal(Cpu6502::inx_model);
    reveal(Cpu6502::iny_model);
    reveal(Cpu6502::lda_model);
    reveal(Cpu6502::ldx_model);
    reveal(Cpu6502::ldy_model);
    reveal(Cpu6502::lsr_model);
    reveal(Cpu6502::nop_model);
    reveal(Cpu6502::ora_model);
}

#[verifier::rlimit(50)]
proof fn lemma_fourth_lot_keeps_pc(cpu: Cpu6502)
    ensures
        cpu.pha_model().pc == cpu.pc,
        cpu.pha_model().cycles == cpu.cycles,
        cpu.php_model().pc == cpu.pc,
        cpu.php_model().cycles == cpu.cycles,
        cpu.pla_model().pc == cpu.pc,
        cpu.pla_model().cycles == cpu.cycles,
        cpu.plp_model().pc == cpu.pc,
        cpu.plp_model().cycles == cpu.cycles,
        cpu.rol_model().pc == cpu.pc,
        cpu.rol_model().cycles == cpu.cycles,
        cpu.ror_model().pc == cpu.pc,
        cpu.ror_model().cycles == cpu.cycles,
        cpu.sbc_model().pc == cpu.pc,
        cpu.sbc_model().cycles == cpu.cycles,
        cpu.sec_model().pc == cpu.pc,
        cpu.sec_model().cycles == cpu.cycles,
{
    reveal(Cpu6502::pha_model);
    reveal(Cpu6502::php_model);
    reveal(Cpu6502::pla_model);
    reveal(Cpu6502::plp_model);
    reveal(Cpu6502::rol_model);
    reveal(Cpu6502::ror_model);
    reveal(Cpu6502::sbc_model);
    reveal(Cpu6502::sec_model);
}

#[verifier::rlimit(50)]
proof fn lemma_fifth_lot_keeps_pc(cpu: Cpu6502)
    ensures
        cpu.sed_model().pc == cpu.pc,
        cpu.sed_model().cycles == cpu.cycles,
        cpu.sei_model().pc == cpu.pc,
        cpu.sei_model().cycles == cpu.cycles,
        cpu.sta_model().pc == cpu.pc,
        cpu.sta_model().cycles == cpu.cycles,
        cpu.stx_model().pc == cpu.pc,
        cpu.stx_model().cycles == cpu.cycles,
        cpu.sty_model().pc == cpu.pc,
        cpu.sty_model().cycles == cpu.cycles,
        cpu.tax_model().pc == cpu.pc,
        cpu.tax_model().cycles == cpu.cycles,
        cpu.tay_model().pc == cpu.pc,
        cpu.tay_model().cycles == cpu.cycles,
        cpu.tsx_model().pc == cpu.pc,
        cpu.tsx_model().cycles == cpu.cycles,
{
    reveal(Cpu6502::sed_model);
    reveal(Cpu6502::sei_model);
    reveal(Cpu6502::sta_model);
    reveal(Cpu6502::stx_model);
    reveal(Cpu6502::sty_model);
    reveal(Cpu6502::tax_model);
    reveal(Cpu6502::tay_model);
    reveal(Cpu6502::tsx_model);
}

#[verifier::rlimit(50)]
proof fn lemma_sixth_lot_keeps_pc(cpu: Cpu6502)
    ensures
        cpu.txa_model().pc == cpu.pc,
        cpu.txa_model().cycles == cpu.cycles,
        cpu.txs_model().pc == cpu.pc,
        cpu.txs_model().cycles == cpu.cycles,
        cpu.tya_model().pc == cpu.pc,
        cpu.tya_model().cycles == cpu.cycles,
        cpu.xxx_model().pc == cpu.pc,
        cpu.xxx_model().cycles == cpu.cycles,
{
    reveal(Cpu6502::txa_model);
    reveal(Cpu6502::txs_model);
    reveal(Cpu6502::tya_model);
    reveal(Cpu6502::xxx_model);
}

/// An operation that is neither a branch nor a jump leaves the program
/// counter where it is, and the cycles to run as they are. The proof takes
/// the operations in lots of eight.
#[verifier::rlimit(50)]
pub proof fn lemma_operation_keeps_pc(cpu: Cpu6502, operation: Operation)
    requires
        !is_branch(operation),
        !is_jump(operation),
    ensures
        cpu.execute_model(operation).pc == cpu.pc,
        cpu.execute_model(operation).cycles == cpu.cycles,
{
    reveal(Cpu6502::execute_model);
    lemma_first_lot_keeps_pc(cpu);
    lemma_second_lot_keeps_pc(cpu);
    lemma_third_lot_keeps_pc(cpu);
    lemma_fourth_lot_keeps_pc(cpu);
    lemma_fifth_lot_keeps_pc(cpu);
    lemma_sixth_lot_keeps_pc(cpu);
}

proof fn lemma_branch_model(cpu: Cpu6502, flag: CPUFlags, wanted: bool)
    ensures
        cpu.branch_model(flag, wanted).pc == (if flag_of(cpu.status, flag) == wanted {
            cpu.pc.wrapping_add(cpu.addr_rel)
        } else {
            cpu.pc
        }),
{
}

#[verifier::rlimit(50)]
proof fn lemma_branches_run_branch_model(cpu: Cpu6502)
    ensures
        cpu.execute_model(Operation::BCC) == cpu.branch_model(CPUFlags::C, false),
        cpu.execute_model(Operation::BCS) == cpu.branch_model(CPUFlags::C, true),
        cpu.execute_model(Operation::BEQ) == cpu.branch_model(CPUFlags::Z, true),
        cpu.execute_model(Operation::BNE) == cpu.branch_model(CPUFlags::Z, false),
        cpu.execute_model(Operation::BMI) == cpu.branch_model(CPUFlags::N, true),
        cpu.execute_model(Operation::BPL) == cpu.branch_model(CPUFlags::N, false),
        cpu.execute_model(Operation::BVC) == cpu.branch_model(CPUFlags::V, false),
        cpu.execute_model(Operation::BVS) == cpu.branch_model(CPUFlags::V, true),
{
    reveal(Cpu6502::execute_model);
    reveal(Cpu6502::bcc_model);
    reveal(Cpu6502::bcs_model);
    reveal(Cpu6502::beq_model);
    reveal(Cpu6502::bmi_model);
    reveal(Cpu6502::bne_model);
    reveal(Cpu6502::bpl_model);
    reveal(Cpu6502::bvc_model);
    reveal(Cpu6502::bvs_model);
}

/// A branch moves the program counter by its displacement where its flag
/// is as it wants it, and leaves it where it is not.
pub proof fn lemma_branch_target(cpu: Cpu6502, operation: Operation)
    requires
        is_branch(operation),
    ensures
        cpu.execute_model(operation).pc == (if branch_taken(operation, cpu.status) {
            cpu.pc.wrapping_add(cpu.addr_rel)
        } else {
            cpu.pc
        }),
{
    lemma_branches_run_branch_model(cpu);
    match branch_condition(operation) {
        Some((flag, wanted)) => {
            lemma_branch_model(cpu, flag, wanted);
        },
        None => {},
    }
}

/// A jump and a call go to the operand's address; a return goes to the
/// address after the word it pulls, a return from interrupt to the word it
/// pulls after P, and a break to the word at $FFFE.
#[verifier::rlimit(50)]
pub proof fn lemma_jump_target(cpu: Cpu6502)
    ensures
        cpu.execute_model(Operation::JMP).pc == cpu.addr_abs,
        cpu.execute_model(Operation::JSR).pc == cpu.addr_abs,
        cpu.execute_model(Operation::RTS).pc == cpu.pop_two_bytes_model().1.wrapping_add(1),
        cpu.execute_model(Operation::RTI).pc == cpu.pop_model().0.pop_two_bytes_model().1,
        cpu.execute_model(Operation::BRK).pc == cpu.push_two_bytes_model(
            cpu.pc.wrapping_add(1),
        ).push_model(cpu.status | 0x30).read_two_bytes_model(0xFFFE).1,
{
    reveal(Cpu6502::execute_model);
    reveal(Cpu6502::jmp_model);
    reveal(Cpu6502::jsr_model);
    reveal(Cpu6502::rts_model);
    reveal(Cpu6502::rti_model);
    reveal(Cpu6502::brk_model);
    assert(crate::cpu::with_flag(
        crate::cpu::with_flag(cpu.status, CPUFlags::B, true),
        CPUFlags::U,
        true,
    ) == cpu.status | 0x30) by {
        lemma_break_flags(cpu.status);
    }
    lemma_return_from_interrupt_target(cpu);
}

proof fn lemma_break_flags(status: u8)
    by (bit_vector)
    ensures
        (status | 0x10) | 0x20 == status | 0x30,
{
}

proof fn lemma_return_from_interrupt_target(cpu: Cpu6502)
    ensures
        cpu.rti_model().pc == cpu.pop_model().0.pop_two_bytes_model().1,
{
    reveal(Cpu6502::rti_model);
}

/// Running one instruction moves the program counter past the
/// instruction: by 1, 2 or 3 bytes as its addressing mode has no operand,
/// one byte or two. The exceptions are the jumps, which go to their
/// targets, and the branches that are taken, which go on from there by
/// their displacement.
#[verifier::rlimit(50)]
pub proof fn lemma_step_advances_pc(cpu: Cpu6502)
    ensures
        ({
            let decoded = cpu.decoded_model();
            let row = decoded.instruction;
            let next = ((cpu.pc + 1 + operand_bytes(row.addr_mode)) % 0x10000) as u16;
            let addressed = decoded.addressing_model().0;
            let after = cpu.step_model();
            &&& 1 <= 1 + operand_bytes(row.addr_mode) <= 3
            &&& addressed.pc == next
            &&& !is_branch(row.function) && !is_jump(row.function) ==> after.pc == next
            &&& is_branch(row.function) ==> after.pc == (if branch_taken(
                row.function,
                cpu.status,
            ) {
                next.wrapping_add(addressed.addr_rel)
            } else {
                next
            })
            &&& row.function == Operation::JMP || row.function == Operation::JSR ==> after.pc
                == addressed.addr_abs
            &&& row.function == Operation::RTS ==> after.pc
                == addressed.pop_two_bytes_model().1.wrapping_add(1)
            &&& row.function == Operation::RTI ==> after.pc
                == addressed.pop_model().0.pop_two_bytes_model().1
            &&& row.function == Operation::BRK ==> after.pc == addressed.push_two_bytes_model(
                next.wrapping_add(1),
            ).push_model(cpu.status | 0x30).read_two_bytes_model(0xFFFE).1
        }),
{
    let decoded = cpu.decoded_model();
    let row = decoded.instruction;
    let addressed = decoded.addressing_model().0;
    lemma_addressing_moves_pc(decoded);
    if is_branch(row.function) {
        lemma_branch_target(addressed, row.function);
    } else if is_jump(row.function) {
        lemma_jump_target(addressed);
    } else {
        lemma_operation_keeps_pc(addressed, row.function);
    }
}

/// A byte read as a number in two's complement.
pub open spec fn signed_value(byte: u8) -> int {
    if byte >= 0x80 {
        byte - 0x100
    } else {
        byte as int
    }
}

proof fn lemma_overflow_by_signs(a: u8, m: u8, r: u8)
    by (bit_vector)
    ensures
        ((!(a ^ m) & (a ^ r)) & 0x80 != 0) == ((a < 0x80) == (m < 0x80) && (a < 0x80) != (r
            < 0x80)),
{
}

proof fn lemma_overflow_flag_kept(status: u8, overflow: bool, carry: bool, zero: bool, negative: bool)
    by (bit_vector)
    ensures
        ({
            let v = if overflow {
                status | 0x40
            } else {
                status & !0x40u8
            };
            let c = if carry {
                v | 0x01
            } else {
                v & !0x01u8
            };
            let z = if zero {
                c | 0x02
            } else {
                c & !0x02u8
            };
            let n = if negative {
                z | 0x80
            } else {
                z & !0x80u8
            };
            (n & 0x40 != 0) == overflow && (n & 0x01 != 0) == carry && (n & 0x02 != 0) == zero && (
            n & 0x80 != 0) == negative
        }),
{
}

/// After an addition to the accumulator the flags say what the sum was:
/// C that it did not fit in a byte, V that it did not fit in a signed
/// byte, Z that its low byte is zero, and N that its low byte is negative.
pub proof fn lemma_add_flags(cpu: Cpu6502, operand: u8)
    ensures
        ({
            let carry: int = if flag_of(cpu.status, CPUFlags::C) {
                1
            } else {
                0
            };
            let sum = cpu.acc + operand + carry;
            let signed_sum = signed_value(cpu.acc) + signed_value(operand) + carry;
            let after = cpu.add_model(operand);
            &&& after.acc == sum % 256
            &&& flag_of(after.status, CPUFlags::C) == (sum > 255)
            &&& flag_of(after.status, CPUFlags::V) == !(-128 <= signed_sum <= 127)
            &&& flag_of(after.status, CPUFlags::Z) == (after.acc == 0)
            &&& flag_of(after.status, CPUFlags::N) == (signed_value(after.acc) < 0)
        }),
{
    let carry: int = if flag_of(cpu.status, CPUFlags::C) {
        1
    } else {
        0
    };
    let sum = cpu.acc + operand + carry;
    let result = (sum % 256) as u8;
    lemma_overflow_by_signs(cpu.acc, operand, result);
    lemma_overflow_flag_kept(
        cpu.status,
        signed_overflow(cpu.acc, operand, result),
        sum > 0xFF,
        result == 0,
        result & 0x80 != 0,
    );
    lemma_top_bit(result);
}

proof fn lemma_top_bit(byte: u8)
    by (bit_vector)
    ensures
        (byte & 0x80 != 0) == (byte >= 0x80),
{
}

/// Every row of the table costs between two and eight cycles.
#[verifier::rlimit(50)]
pub proof fn lemma_table_cycles(opcode: u8)
    ensures
        2 <= instruction_model(opcode).clock_cycles <= 8,
{
    reveal(instruction_model);
}

/// A jump leaves the cycles to run as they are, and a branch adds one
/// where it is taken and one more where it leaves the page.
#[verifier::rlimit(50)]
proof fn lemma_jump_and_branch_cycles(cpu: Cpu6502, operation: Operation)
    requires
        is_branch(operation) || is_jump(operation),
        cpu.cycles == 0,
    ensures
        cpu.execute_model(operation).cycles <= 2,
        is_jump(operation) ==> cpu.execute_model(operation).cycles == 0,
{
    reveal(Cpu6502::execute_model);
    reveal(Cpu6502::jmp_model);
    reveal(Cpu6502::jsr_model);
    reveal(Cpu6502::rts_model);
    reveal(Cpu6502::rti_model);
    reveal(Cpu6502::brk_model);
    lemma_branches_run_branch_model(cpu);
}

/// An instruction that begins with no cycles left to run leaves between 2
/// and 11 to run: its row's cycles, one more where indexing leaves the
/// page, and up to two more for a branch.
#[verifier::rlimit(50)]
pub proof fn lemma_step_cycles(cpu: Cpu6502)
    requires
        cpu.cycles == 0,
    ensures
        2 <= cpu.step_model().cycles <= 11,
{
    let decoded = cpu.decoded_model();
    lemma_table_cycles(cpu.read_model(cpu.pc).1);
    lemma_addressing_keeps_cycles(decoded);
    let addressed = decoded.addressing_model().0;
    if is_branch(decoded.instruction.function) || is_jump(decoded.instruction.function) {
        lemma_jump_and_branch_cycles(addressed, decoded.instruction.function);
    } else {
        lemma_operation_keeps_pc(addressed, decoded.instruction.function);
    }
}

proof fn lemma_addressing_keeps_cycles(cpu: Cpu6502)
    ensures
        cpu.addressing_model().0.cycles == cpu.cycles,
        cpu.addressing_model().1 <= 1,
{
    reveal(Cpu6502::addressing_model);
}

/// The cycles to run never run under: a cycle that begins an instruction
/// or serves an interrupt leaves between 1 and 10 to run, and every other
/// cycle leaves one fewer than it found.
pub proof fn lemma_cycles_never_run_under(cpu: Cpu6502)
    ensures
        cpu.cycles == 0 ==> 1 <= cpu.clock_model().cycles <= 10,
        cpu.cycles > 0 ==> cpu.clock_model().cycles == cpu.cycles - 1,
{
    reveal(Cpu6502::clock_model);
    if cpu.cycles == 0 {
        lemma_step_cycles(cpu);
    }
}

} // verus!
