//! Instructions in words, for the 8-bit loads.

use vstd::prelude::*;
use vstd::string::*;
use crate::cpu::{high_address, spec_high_address, AT_HL};
use crate::interconnect::{BusModel, Interconnect};
use crate::register::Registers;
use crate::text::{hex_byte, hex_word, push_hex_byte, push_hex_word};

verus! {

/// The name of the 8-bit operand with number `index` in the encoding.
pub open spec fn spec_operand_name(index: u8) -> Seq<char> {
    if index == 0 {
        "B"@
    } else if index == 1 {
        "C"@
    } else if index == 2 {
        "D"@
    } else if index == 3 {
        "E"@
    } else if index == 4 {
        "H"@
    } else if index == 5 {
        "L"@
    } else if index == AT_HL {
        "(HL)"@
    } else {
        "A"@
    }
}

pub fn operand_name(index: u8) -> (name: &'static str)
    ensures
        name@ == spec_operand_name(index),
{
    if index == 0 {
        "B"
    } else if index == 1 {
        "C"
    } else if index == 2 {
        "D"
    } else if index == 3 {
        "E"
    } else if index == 4 {
        "H"
    } else if index == 5 {
        "L"
    } else if index == AT_HL {
        "(HL)"
    } else {
        "A"
    }
}

/// The value of the 8-bit operand with number `index`.
pub open spec fn spec_operand_value(reg: Registers, bus: BusModel, index: u8) -> u8 {
    if index == 0 {
        reg.b
    } else if index == 1 {
        reg.c
    } else if index == 2 {
        reg.d
    } else if index == 3 {
        reg.e
    } else if index == 4 {
        reg.h
    } else if index == 5 {
        reg.l
    } else if index == AT_HL {
        bus.read(reg.hl())
    } else {
        reg.a
    }
}

pub fn operand_value(reg: &Registers, mem: &Interconnect, index: u8) -> (value: u8)
    ensures
        value == spec_operand_value(*reg, mem@, index),
{
    if index == 0 {
        reg.b
    } else if index == 1 {
        reg.c
    } else if index == 2 {
        reg.d
    } else if index == 3 {
        reg.e
    } else if index == 4 {
        reg.h
    } else if index == 5 {
        reg.l
    } else if index == AT_HL {
        mem.read(reg.hl())
    } else {
        reg.a
    }
}

/// Whether `opcode` is a load between two 8-bit operands.
pub open spec fn is_load(opcode: u8) -> bool {
    0x40 <= opcode < 0x80 && opcode != 0x76
}

/// Whether `opcode` is a load of the byte after it into an 8-bit operand.
pub open spec fn is_load_immediate(opcode: u8) -> bool {
    opcode < 0x40 && opcode % 8 == 6
}

/// A load between two 8-bit operands in words, with the value loaded.
pub open spec fn load_text(reg: Registers, bus: BusModel, opcode: u8) -> Seq<char> {
    let target = ((opcode - 0x40) / 8) as u8;
    let source = opcode % 8;
    if target == AT_HL {
        "LD (HL), $"@ + hex_byte(spec_operand_value(reg, bus, source))
    } else {
        "LD "@ + spec_operand_name(target) + ", "@ + spec_operand_name(source) + "=$"@ + hex_byte(
            spec_operand_value(reg, bus, source),
        )
    }
}

/// A load of the byte at `PC` into an 8-bit operand in words.
pub open spec fn load_immediate_text(reg: Registers, bus: BusModel, opcode: u8) -> Seq<char> {
    "LD "@ + spec_operand_name(opcode / 8) + ", $"@ + hex_byte(bus.read(reg.pc))
}

/// The instruction with the opcode `opcode` in words, where `reg.pc` is the
/// address after the opcode. Loads into and from 8-bit operands are written
/// with the value they load; every other opcode is written as `Unknown`
/// with its number.
pub open spec fn disassembled(reg: Registers, bus: BusModel, opcode: u8) -> Seq<char> {
    if is_load(opcode) {
        load_text(reg, bus, opcode)
    } else if is_load_immediate(opcode) {
        load_immediate_text(reg, bus, opcode)
    } else if opcode == 0x0A {
        "LD A, (BC)=$"@ + hex_byte(bus.read(reg.bc()))
    } else if opcode == 0x1A {
        "LD A, (DE)=$"@ + hex_byte(bus.read(reg.de()))
    } else if opcode == 0xF2 {
        "LD A, ($"@ + hex_word(spec_high_address(reg.c)) + ")=$"@ + hex_byte(
            bus.read(spec_high_address(reg.c)),
        )
    } else {
        "Unknown: "@ + hex_byte(opcode)
    }
}

/// Writes the instruction with the opcode `opcode` in words.
pub fn disassemble(reg: &Registers, mem: &Interconnect, opcode: u8) -> (text: String)
    ensures
        text@ == disassembled(*reg, mem@, opcode),
{
    if 0x40 <= opcode && opcode < 0x80 && opcode != 0x76 {
        let target: u8 = (opcode - 0x40) / 8;
        let source: u8 = opcode % 8;
        let value: u8 = operand_value(reg, mem, source);
        if target == AT_HL {
            let mut text = String::from_str("LD (HL), $");
            push_hex_byte(&mut text, value);
            text
        } else {
            let mut text = String::from_str("LD ");
            text.append(operand_name(target));
            text.append(", ");
            text.append(operand_name(source));
            text.append("=$");
            push_hex_byte(&mut text, value);
            text
        }
    } else if opcode < 0x40 && opcode % 8 == 6 {
        let mut text = String::from_str("LD ");
        text.append(operand_name(opcode / 8));
        text.append(", $");
        push_hex_byte(&mut text, mem.read(reg.pc));
        text
    } else if opcode == 0x0A {
        let mut text = String::from_str("LD A, (BC)=$");
        push_hex_byte(&mut text, mem.read(reg.bc()));
        text
    } else if opcode == 0x1A {
        let mut text = String::from_str("LD A, (DE)=$");
        push_hex_byte(&mut text, mem.read(reg.de()));
        text
    } else if opcode == 0xF2 {
        let address: u16 = high_address(reg.c);
        let mut text = String::from_str("LD A, ($");
        push_hex_word(&mut text, address);
        text.append(")=$");
        push_hex_byte(&mut text, mem.read(address));
        text
    } else {
        let mut text = String::from_str("Unknown: ");
        push_hex_byte(&mut text, opcode);
        text
    }
}

} // verus!
