//! The program memory of a cartridge as text, one line per instruction.

use crate::cartridge::Cartridge;
use crate::instructions::instruction::{operand_bytes, sign_extended, AddressingMode};
use crate::instructions::instruction_table::instruction_table::{
    instruction_lookup, instruction_model,
};
use std::collections::HashMap;
use vstd::prelude::*;
use vstd::string::StringExecFns;

verus! {

/// The three letters of an addressing mode.
pub open spec fn mode_text(mode: AddressingMode) -> Seq<char> {
    match mode {
        AddressingMode::IMP => "IMP"@,
        AddressingMode::IMM => "IMM"@,
        AddressingMode::ZP0 => "ZP0"@,
        AddressingMode::ZPX => "ZPX"@,
        AddressingMode::ZPY => "ZPY"@,
        AddressingMode::REL => "REL"@,
        AddressingMode::ABS => "ABS"@,
        AddressingMode::ABX => "ABX"@,
        AddressingMode::ABY => "ABY"@,
        AddressingMode::IND => "IND"@,
        AddressingMode::IZX => "IZX"@,
        AddressingMode::IZY => "IZY"@,
        AddressingMode::YYY => "XXX"@,
    }
}

impl AddressingMode {
    /// The mode's three letters.
    pub fn name(&self) -> (r: &'static str)
        ensures
            r@ == mode_text(*self),
    {
        match self {
            AddressingMode::IMP => "IMP",
            AddressingMode::IMM => "IMM",
            AddressingMode::ZP0 => "ZP0",
            AddressingMode::ZPX => "ZPX",
            AddressingMode::ZPY => "ZPY",
            AddressingMode::REL => "REL",
            AddressingMode::ABS => "ABS",
            AddressingMode::ABX => "ABX",
            AddressingMode::ABY => "ABY",
            AddressingMode::IND => "IND",
            AddressingMode::IZX => "IZX",
            AddressingMode::IZY => "IZY",
            AddressingMode::YYY => "XXX",
        }
    }
}

pub fn decode_bytes_used(ins: AddressingMode) -> (r: usize)
    ensures
        r == operand_bytes(ins),
{
    match ins {
        AddressingMode::IMP | AddressingMode::YYY => 0,
        AddressingMode::IMM
        | AddressingMode::IZX
        | AddressingMode::IZY
        | AddressingMode::REL
        | AddressingMode::ZP0
        | AddressingMode::ZPX
        | AddressingMode::ZPY => 1,
        AddressingMode::ABS | AddressingMode::ABX | AddressingMode::ABY | AddressingMode::IND => 2,
    }
}

/// One digit, of the sixteen, as text.
pub open spec fn digit_text(digit: int) -> Seq<char> {
    if digit == 0 {
        "0"@
    } else if digit == 1 {
        "1"@
    } else if digit == 2 {
        "2"@
    } else if digit == 3 {
        "3"@
    } else if digit == 4 {
        "4"@
    } else if digit == 5 {
        "5"@
    } else if digit == 6 {
        "6"@
    } else if digit == 7 {
        "7"@
    } else if digit == 8 {
        "8"@
    } else if digit == 9 {
        "9"@
    } else if digit == 10 {
        "A"@
    } else if digit == 11 {
        "B"@
    } else if digit == 12 {
        "C"@
    } else if digit == 13 {
        "D"@
    } else if digit == 14 {
        "E"@
    } else {
        "F"@
    }
}

fn digit(value: u16) -> (r: &'static str)
    requires
        value < 16,
    ensures
        r@ == digit_text(value as int),
{
    if value == 0 {
        "0"
    } else if value == 1 {
        "1"
    } else if value == 2 {
        "2"
    } else if value == 3 {
        "3"
    } else if value == 4 {
        "4"
    } else if value == 5 {
        "5"
    } else if value == 6 {
        "6"
    } else if value == 7 {
        "7"
    } else if value == 8 {
        "8"
    } else if value == 9 {
        "9"
    } else if value == 10 {
        "A"
    } else if value == 11 {
        "B"
    } else if value == 12 {
        "C"
    } else if value == 13 {
        "D"
    } else if value == 14 {
        "E"
    } else {
        "F"
    }
}

/// A byte as two hexadecimal digits.
pub open spec fn hex2_text(value: u8) -> Seq<char> {
    digit_text(value as int / 16) + digit_text(value as int % 16)
}

/// A word as four hexadecimal digits.
pub open spec fn hex4_text(value: u16) -> Seq<char> {
    digit_text(value as int / 4096) + digit_text(value as int / 256 % 16) + digit_text(
        value as int / 16 % 16,
    ) + digit_text(value as int % 16)
}

/// A byte as four decimal digits.
pub open spec fn decimal4_text(value: u8) -> Seq<char> {
    digit_text(0) + digit_text(value as int / 100) + digit_text(value as int / 10 % 10)
        + digit_text(value as int % 10)
}

fn push_hex2(line: &mut String, value: u8)
    ensures
        final(line)@ == old(line)@ + hex2_text(value),
{
    line.append(digit((value / 16) as u16));
    line.append(digit((value % 16) as u16));
    assert(line@ =~= old(line)@ + hex2_text(value));
}

fn push_hex4(line: &mut String, value: u16)
    ensures
        final(line)@ == old(line)@ + hex4_text(value),
{
    line.append(digit(value / 4096));
    line.append(digit(value / 256 % 16));
    line.append(digit(value / 16 % 16));
    line.append(digit(value % 16));
    assert(line@ =~= old(line)@ + hex4_text(value));
}

fn push_decimal4(line: &mut String, value: u8)
    ensures
        final(line)@ == old(line)@ + decimal4_text(value),
{
    line.append(digit(0));
    line.append(digit((value / 100) as u16));
    line.append(digit((value / 10 % 10) as u16));
    line.append(digit((value % 10) as u16));
    assert(line@ =~= old(line)@ + decimal4_text(value));
}

/// The byte of program memory at `addr`, or zero where the cartridge does
/// not answer. Addresses count on past $FFFF to $0000.
pub open spec fn program_byte(cart: &Cartridge, addr: int) -> u8 {
    match cart.cpu_read_model((addr % 0x10000) as u16) {
        Ok(data) => data,
        Err(_) => 0,
    }
}

fn read_program_byte(cart: &Cartridge, addr: u32) -> (r: u8)
    ensures
        r == program_byte(cart, addr as int),
{
    match cart.cpu_read((addr % 0x10000) as u16) {
        Ok(data) => data,
        Err(_) => 0,
    }
}

/// The operand of the instruction at `addr` as text, with its mode in
/// braces behind it.
pub open spec fn operand_text(cart: &Cartridge, addr: int) -> Seq<char> {
    let mode = instruction_model(program_byte(cart, addr)).addr_mode;
    let first = program_byte(cart, addr + 1);
    let second = program_byte(cart, addr + 2);
    let braces = "{"@ + mode_text(mode) + "}"@;
    match mode {
        AddressingMode::IMP => "               "@ + braces,
        AddressingMode::IMM
        | AddressingMode::ZP0
        | AddressingMode::ZPX
        | AddressingMode::ZPY
        | AddressingMode::IZX
        | AddressingMode::IZY => "#$"@ + decimal4_text(first) + "         "@ + braces,
        AddressingMode::ABS | AddressingMode::ABX | AddressingMode::ABY | AddressingMode::IND => "#$"@
            + hex4_text((second as u16 * 256 + first as u16) as u16) + "         "@ + braces,
        AddressingMode::REL => "#$  "@ + hex2_text(first) + " [$"@ + hex4_text(
            (((addr + 2) % 0x10000) as u16).wrapping_add(sign_extended(first)),
        ) + "] "@ + braces,
        AddressingMode::YYY => "How?"@,
    }
}

/// The line for the instruction at `addr`: the address, the mnemonic and
/// the operand.
pub open spec fn line_text(cart: &Cartridge, addr: int) -> Seq<char> {
    "$0x"@ + hex4_text(addr as u16) + " -> "@ + instruction_model(program_byte(cart, addr)).name@
        + " "@ + operand_text(cart, addr)
}

/// Where the instruction after the one at `addr` begins.
pub open spec fn next_line(cart: &Cartridge, addr: int) -> int {
    addr + 1 + operand_bytes(instruction_model(program_byte(cart, addr)).addr_mode)
}

/// The lines from `addr` up to `stop`, added to `lines`: one at `addr`, the
/// next behind its operand, and so on.
pub open spec fn lines_from(
    cart: &Cartridge,
    addr: int,
    stop: int,
    lines: Map<u16, Seq<char>>,
) -> Map<u16, Seq<char>>
    decreases stop + 3 - addr,
    via lines_from_decreases
{
    if addr > stop || addr < 0 {
        lines
    } else {
        lines_from(cart, next_line(cart, addr), stop, lines.insert(addr as u16, line_text(cart, addr)))
    }
}

#[via_fn]
proof fn lines_from_decreases(cart: &Cartridge, addr: int, stop: int, lines: Map<u16, Seq<char>>) {
    assert(operand_bytes(instruction_model(program_byte(cart, addr)).addr_mode) >= 0);
}

/// The text of every line of a disassembly, by the line's address.
pub open spec fn texts(lines: Map<u16, String>) -> Map<u16, Seq<char>> {
    lines.map_values(|line: String| line@)
}

#[verifier::rlimit(50)]
fn disassemble_line(cart: &Cartridge, addr: u32) -> (r: (String, u32))
    requires
        addr <= 0xFFFF,
    ensures
        r.0@ == line_text(cart, addr as int),
        r.1 == next_line(cart, addr as int),
        addr < r.1 <= addr + 3,
{
    let opcode: u8 = read_program_byte(cart, addr);
    let instruction = instruction_lookup(opcode);
    let mode = instruction.addr_mode;
    let first: u8 = read_program_byte(cart, addr + 1);
    let second: u8 = read_program_byte(cart, addr + 2);
    let mut line: String = String::from_str("$0x");
    push_hex4(&mut line, addr as u16);
    line.append(" -> ");
    line.append(instruction.name);
    line.append(" ");
    let ghost head = line@;
    match mode {
        AddressingMode::IMP => {
            line.append("               ");
            line.append("{");
            line.append(mode.name());
            line.append("}");
        },
        AddressingMode::IMM
        | AddressingMode::ZP0
        | AddressingMode::ZPX
        | AddressingMode::ZPY
        | AddressingMode::IZX
        | AddressingMode::IZY => {
            line.append("#$");
            push_decimal4(&mut line, first);
            line.append("         ");
            line.append("{");
            line.append(mode.name());
            line.append("}");
        },
        AddressingMode::ABS | AddressingMode::ABX | AddressingMode::ABY | AddressingMode::IND => {
            line.append("#$");
            push_hex4(&mut line, second as u16 * 256 + first as u16);
            line.append("         ");
            line.append("{");
            line.append(mode.name());
            line.append("}");
        },
        AddressingMode::REL => {
            let displacement: u16 = if first & 0x80 != 0 {
                (first as u16) | 0xFF00
            } else {
                first as u16
            };
            let target: u16 = (((addr + 2) % 0x10000) as u16).wrapping_add(displacement);
            line.append("#$  ");
            push_hex2(&mut line, first);
            line.append(" [$");
            push_hex4(&mut line, target);
            line.append("] ");
            line.append("{");
            line.append(mode.name());
            line.append("}");
        },
        AddressingMode::YYY => {
            line.append("How?");
        },
    }
    assert(line@ =~= head + operand_text(cart, addr as int));
    assert(head =~= "$0x"@ + hex4_text(addr as u16) + " -> "@ + instruction.name@ + " "@);
    assert(line@ =~= line_text(cart, addr as int));
    let next: u32 = addr + 1 + decode_bytes_used(mode) as u32;
    (line, next)
}

/// Disassembles the program memory from `start` to `stop`. The result
/// holds one line for each instruction that begins in that range, by the
/// instruction's address.
#[verifier::rlimit(50)]
pub fn disassemble_rom(start: u16, stop: u16, cart: &Cartridge) -> (hm: HashMap<u16, String>)
    ensures
        texts(hm@) == lines_from(cart, start as int, stop as int, Map::empty()),
{
    broadcast use vstd::std_specs::hash::group_hash_axioms;

    let mut addr: u32 = start as u32;
    let mut hm: HashMap<u16, String> = HashMap::new();
    assert(texts(hm@) =~= Map::<u16, Seq<char>>::empty());
    while addr <= stop as u32
        invariant
            addr <= 0x10002,
            lines_from(cart, addr as int, stop as int, texts(hm@)) == lines_from(
                cart,
                start as int,
                stop as int,
                Map::empty(),
            ),
        decreases stop + 3 - addr,
    {
        let line_addr: u16 = addr as u16;
        let ghost before = hm@;
        let (line, next) = disassemble_line(cart, addr);
        hm.insert(line_addr, line);
        assert(texts(hm@) =~= texts(before).insert(line_addr, line_text(cart, addr as int)));
        addr = next;
    }
    hm
}

} // verus!
