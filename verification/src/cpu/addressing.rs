//! Operand resolution: from an addressing mode and the bytes after the
//! opcode to the address that the instruction works on.

use crate::cpu::alu::signed;
use crate::cpu::bus::{
    offset, read_word, read_zero_page_word, word_at, wrapped, wrapped_byte, zero_page_offset,
    zero_page_word_at, Bus,
};
use crate::cpu::opcode::{operand_bytes, AddressingMode};
use crate::cpu::registers::RegisterFile;
use vstd::prelude::*;

verus! {

/// Where an instruction finds its operand, and where it may branch to.
#[derive(Clone, Copy, Debug, PartialEq, Eq, Structural)]
pub struct Operand {
    /// The operand is the accumulator, not a byte of memory.
    pub in_accumulator: bool,
    /// The effective address, for the modes that have one; else zero.
    pub address: u16,
    /// The address that a branch goes to when taken, for the two relative
    /// modes; else zero.
    pub target: u16,
    /// Whether an index carried the effective address into another page than
    /// that of its base, or a branch target lies in another page than the
    /// instruction after the branch.
    pub page_crossed: bool,
}

/// The operand of an instruction that has none.
pub open spec fn no_operand() -> Operand {
    Operand { in_accumulator: false, address: 0, target: 0, page_crossed: false }
}

/// The operand at a known address, reached without indexing.
pub open spec fn operand_at(address: u16) -> Operand {
    Operand { address, ..no_operand() }
}

/// Whether two addresses lie in different 256-byte pages.
pub open spec fn pages_differ(first: u16, second: u16) -> bool {
    first / 256 != second / 256
}

/// The operand at `base + index`, wrapping at the end of the address space.
pub open spec fn operand_indexed(base: u16, index: u8) -> Operand {
    Operand {
        address: wrapped(base + index),
        page_crossed: pages_differ(base, wrapped(base + index)),
        ..no_operand()
    }
}

/// The address `displacement` bytes from `next`, the displacement read as a
/// signed number, wrapping at both ends of the address space.
pub open spec fn displaced(next: u16, displacement: u8) -> u16 {
    wrapped(next + signed(displacement))
}

/// The operand of a branch: `next` is the address of the instruction after
/// the branch.
pub open spec fn operand_branch(address: u16, next: u16, displacement: u8) -> Operand {
    Operand {
        in_accumulator: false,
        address,
        target: displaced(next, displacement),
        page_crossed: pages_differ(next, displaced(next, displacement)),
    }
}

/// The operand that `mode` gives when the program counter `pc` stands on the
/// first byte after the opcode.
pub open spec fn operand_for(mode: AddressingMode, r: RegisterFile, memory: Seq<u8>) -> Operand {
    let first = memory[r.pc as int];
    match mode {
        AddressingMode::Implied => no_operand(),
        AddressingMode::Accumulator => Operand { in_accumulator: true, ..no_operand() },
        AddressingMode::Immediate => operand_at(r.pc),
        AddressingMode::ZeroPage => operand_at(first as u16),
        AddressingMode::ZeroPageX => operand_at(wrapped_byte(first + r.x) as u16),
        AddressingMode::ZeroPageY => operand_at(wrapped_byte(first + r.y) as u16),
        AddressingMode::Absolute => operand_at(word_at(memory, r.pc)),
        AddressingMode::AbsoluteX => operand_indexed(word_at(memory, r.pc), r.x),
        AddressingMode::AbsoluteY => operand_indexed(word_at(memory, r.pc), r.y),
        AddressingMode::Indirect => operand_at(word_at(memory, word_at(memory, r.pc))),
        AddressingMode::IndexedIndirect => operand_at(
            zero_page_word_at(memory, wrapped_byte(first + r.x)),
        ),
        AddressingMode::IndirectIndexed => operand_indexed(zero_page_word_at(memory, first), r.y),
        AddressingMode::Relative => operand_branch(0, wrapped(r.pc + 1), first),
        AddressingMode::ZeroPageIndirect => operand_at(zero_page_word_at(memory, first)),
        AddressingMode::AbsoluteIndexedIndirect => operand_at(
            word_at(memory, wrapped(word_at(memory, r.pc) + r.x)),
        ),
        AddressingMode::ZeroPageRelative => operand_branch(
            first as u16,
            wrapped(r.pc + 2),
            memory[wrapped(r.pc + 1) as int],
        ),
    }
}

/// The register file with the program counter moved past the operand bytes.
pub open spec fn past_operand(mode: AddressingMode, r: RegisterFile) -> RegisterFile {
    RegisterFile { pc: wrapped(r.pc + operand_bytes(mode)), ..r }
}

/// Adds an index register to a base address.
fn index_from(base: u16, index: u8) -> (operand: Operand)
    ensures
        operand == operand_indexed(base, index),
{
    let address = offset(base, index as u16);
    Operand {
        in_accumulator: false,
        address,
        target: 0,
        page_crossed: base / 256 != address / 256,
    }
}

/// The operand at an address.
fn plain(address: u16) -> (operand: Operand)
    ensures
        operand == operand_at(address),
{
    Operand { in_accumulator: false, address, target: 0, page_crossed: false }
}

/// Applies a signed displacement to the address after a branch.
fn branch_from(address: u16, next: u16, displacement: u8) -> (operand: Operand)
    ensures
        operand == operand_branch(address, next, displacement),
{
    let target = if displacement < 128 {
        next.wrapping_add(displacement as u16)
    } else {
        next.wrapping_sub(256 - displacement as u16)
    };
    Operand { in_accumulator: false, address, target, page_crossed: next / 256 != target / 256 }
}

/// Resolves the operand of an instruction.
///
/// On entry the program counter stands on the first byte after the opcode;
/// on return it stands on the next instruction. Memory is only read.
pub fn resolve<B: Bus>(mode: AddressingMode, registers: &mut RegisterFile, bus: &B) -> (operand:
    Operand)
    ensures
        operand == operand_for(mode, *old(registers), bus.contents()),
        *final(registers) == past_operand(mode, *old(registers)),
{
    let pc = registers.pc;
    registers.pc = offset(pc, mode.operand_bytes());
    match mode {
        AddressingMode::Implied => Operand {
            in_accumulator: false,
            address: 0,
            target: 0,
            page_crossed: false,
        },
        AddressingMode::Accumulator => Operand {
            in_accumulator: true,
            address: 0,
            target: 0,
            page_crossed: false,
        },
        AddressingMode::Immediate => plain(pc),
        AddressingMode::ZeroPage => plain(bus.read(pc) as u16),
        AddressingMode::ZeroPageX => plain(zero_page_offset(bus.read(pc), registers.x) as u16),
        AddressingMode::ZeroPageY => plain(zero_page_offset(bus.read(pc), registers.y) as u16),
        AddressingMode::Absolute => plain(read_word(bus, pc)),
        AddressingMode::AbsoluteX => index_from(read_word(bus, pc), registers.x),
        AddressingMode::AbsoluteY => index_from(read_word(bus, pc), registers.y),
        AddressingMode::Indirect => {
            let pointer = read_word(bus, pc);
            plain(read_word(bus, pointer))
        },
        AddressingMode::IndexedIndirect => {
            let pointer = zero_page_offset(bus.read(pc), registers.x);
            plain(read_zero_page_word(bus, pointer))
        },
        AddressingMode::IndirectIndexed => {
            let pointer = bus.read(pc);
            index_from(read_zero_page_word(bus, pointer), registers.y)
        },
        AddressingMode::Relative => branch_from(0, offset(pc, 1), bus.read(pc)),
        AddressingMode::ZeroPageIndirect => {
            let pointer = bus.read(pc);
            plain(read_zero_page_word(bus, pointer))
        },
        AddressingMode::AbsoluteIndexedIndirect => {
            let pointer = offset(read_word(bus, pc), registers.x as u16);
            plain(read_word(bus, pointer))
        },
        AddressingMode::ZeroPageRelative => {
            let address = bus.read(pc) as u16;
            let displacement = bus.read(offset(pc, 1));
            branch_from(address, offset(pc, 2), displacement)
        },
    }
}

} // verus!
