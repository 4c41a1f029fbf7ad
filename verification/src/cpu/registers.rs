//! The register file: three 8-bit registers, the program counter, the stack
//! pointer and seven status flags, all held as plain peers.

use crate::cpu::alu::bit_set;
use vstd::prelude::*;

verus! {

/// The seven named status flags.
#[derive(Clone, Copy, Debug, PartialEq, Eq, Structural)]
pub enum Flag {
    /// Bit 0 of the status byte.
    Carry,
    /// Bit 1.
    Zero,
    /// Bit 2: while set, interrupt requests are not serviced.
    InterruptDisable,
    /// Bit 3: while set, addition and subtraction work in decimal.
    Decimal,
    /// Bit 4: tells a pushed status of a break instruction from that of a
    /// hardware interrupt.
    BreakAtPush,
    /// Bit 6.
    Overflow,
    /// Bit 7.
    Negative,
}

/// The registers and flags of the processor.
#[derive(Clone, Copy, Debug, PartialEq, Eq, Structural)]
pub struct RegisterFile {
    /// The accumulator.
    pub a: u8,
    /// Index register X.
    pub x: u8,
    /// Index register Y.
    pub y: u8,
    /// The program counter.
    pub pc: u16,
    /// The stack pointer: the offset, within page 1, of the next free byte.
    pub sp: u8,
    pub carry: bool,
    pub zero: bool,
    pub interrupt_disable: bool,
    pub decimal: bool,
    pub break_at_push: bool,
    pub overflow: bool,
    pub negative: bool,
}

/// The weight of a flag's bit in the status byte when the flag is set.
pub open spec fn weighted(flag: bool, weight: int) -> int {
    if flag {
        weight
    } else {
        0
    }
}

/// The status byte of a register file: one bit per flag, and bit 5 set.
pub open spec fn status_byte(r: RegisterFile) -> u8 {
    (weighted(r.carry, 1) + weighted(r.zero, 2) + weighted(r.interrupt_disable, 4) + weighted(
        r.decimal,
        8,
    ) + weighted(r.break_at_push, 16) + 32 + weighted(r.overflow, 64) + weighted(
        r.negative,
        128,
    )) as u8
}

/// The register file with its seven flags taken from a status byte. Bit 5 of
/// the byte is not kept anywhere.
pub open spec fn with_status(r: RegisterFile, status: u8) -> RegisterFile {
    RegisterFile {
        carry: status % 2 == 1,
        zero: (status / 2) % 2 == 1,
        interrupt_disable: (status / 4) % 2 == 1,
        decimal: (status / 8) % 2 == 1,
        break_at_push: (status / 16) % 2 == 1,
        overflow: (status / 64) % 2 == 1,
        negative: (status / 128) % 2 == 1,
        ..r
    }
}

/// The register file after a result: Zero is set for a zero result, Negative
/// for one with bit 7 set.
pub open spec fn with_result_flags(r: RegisterFile, result: u8) -> RegisterFile {
    RegisterFile { zero: result == 0, negative: result >= 128, ..r }
}

/// The value of one flag.
pub open spec fn flag_of(r: RegisterFile, flag: Flag) -> bool {
    match flag {
        Flag::Carry => r.carry,
        Flag::Zero => r.zero,
        Flag::InterruptDisable => r.interrupt_disable,
        Flag::Decimal => r.decimal,
        Flag::BreakAtPush => r.break_at_push,
        Flag::Overflow => r.overflow,
        Flag::Negative => r.negative,
    }
}

/// The register file with one flag replaced.
pub open spec fn with_flag(r: RegisterFile, flag: Flag, value: bool) -> RegisterFile {
    match flag {
        Flag::Carry => RegisterFile { carry: value, ..r },
        Flag::Zero => RegisterFile { zero: value, ..r },
        Flag::InterruptDisable => RegisterFile { interrupt_disable: value, ..r },
        Flag::Decimal => RegisterFile { decimal: value, ..r },
        Flag::BreakAtPush => RegisterFile { break_at_push: value, ..r },
        Flag::Overflow => RegisterFile { overflow: value, ..r },
        Flag::Negative => RegisterFile { negative: value, ..r },
    }
}

/// The register file at power-on, before any reset: every register zero and
/// every flag clear.
pub open spec fn cleared_registers() -> RegisterFile {
    RegisterFile {
        a: 0,
        x: 0,
        y: 0,
        pc: 0,
        sp: 0,
        carry: false,
        zero: false,
        interrupt_disable: false,
        decimal: false,
        break_at_push: false,
        overflow: false,
        negative: false,
    }
}

impl RegisterFile {
    /// A register file with every register zero and every flag clear.
    pub fn new() -> (r: RegisterFile)
        ensures
            r == cleared_registers(),
    {
        RegisterFile {
            a: 0,
            x: 0,
            y: 0,
            pc: 0,
            sp: 0,
            carry: false,
            zero: false,
            interrupt_disable: false,
            decimal: false,
            break_at_push: false,
            overflow: false,
            negative: false,
        }
    }

    /// Reads one flag.
    pub fn flag(&self, flag: Flag) -> (value: bool)
        ensures
            value == flag_of(*self, flag),
    {
        match flag {
            Flag::Carry => self.carry,
            Flag::Zero => self.zero,
            Flag::InterruptDisable => self.interrupt_disable,
            Flag::Decimal => self.decimal,
            Flag::BreakAtPush => self.break_at_push,
            Flag::Overflow => self.overflow,
            Flag::Negative => self.negative,
        }
    }

    /// Writes one flag and leaves everything else as it was.
    pub fn set_flag(&mut self, flag: Flag, value: bool)
        ensures
            *final(self) == with_flag(*old(self), flag, value),
    {
        match flag {
            Flag::Carry => self.carry = value,
            Flag::Zero => self.zero = value,
            Flag::InterruptDisable => self.interrupt_disable = value,
            Flag::Decimal => self.decimal = value,
            Flag::BreakAtPush => self.break_at_push = value,
            Flag::Overflow => self.overflow = value,
            Flag::Negative => self.negative = value,
        }
    }

    /// Packs the flags into the status byte. Bit 5 is always set.
    pub fn pack_status(&self) -> (status: u8)
        ensures
            status == status_byte(*self),
    {
        let mut status: u8 = 0x20;
        if self.carry {
            status = status + 0x01;
        }
        if self.zero {
            status = status + 0x02;
        }
        if self.interrupt_disable {
            status = status + 0x04;
        }
        if self.decimal {
            status = status + 0x08;
        }
        if self.break_at_push {
            status = status + 0x10;
        }
        if self.overflow {
            status = status + 0x40;
        }
        if self.negative {
            status = status + 0x80;
        }
        status
    }

    /// Takes the seven flags from a status byte. Bit 5 of the byte is dropped;
    /// the registers are left as they were.
    pub fn unpack_status(&mut self, status: u8)
        ensures
            *final(self) == with_status(*old(self), status),
    {
        proof {
            lemma_status_bits(status);
        }
        self.carry = status & 0x01 != 0;
        self.zero = status & 0x02 != 0;
        self.interrupt_disable = status & 0x04 != 0;
        self.decimal = status & 0x08 != 0;
        self.break_at_push = status & 0x10 != 0;
        self.overflow = status & 0x40 != 0;
        self.negative = status & 0x80 != 0;
    }

    /// Sets Zero and Negative from a result, as every load, transfer and
    /// arithmetic instruction does last.
    pub fn set_result_flags(&mut self, result: u8)
        ensures
            *final(self) == with_result_flags(*old(self), result),
    {
        self.zero = result == 0;
        self.negative = result >= 128;
    }
}

/// Packing the flags and unpacking the byte gives the same flags back, and
/// leaves the registers alone.
pub proof fn lemma_unpack_of_pack(r: RegisterFile)
    ensures
        with_status(r, status_byte(r)) == r,
{
}

/// Each flag that `with_status` reads is one bit of the byte.
proof fn lemma_status_bits(status: u8)
    by (bit_vector)
    ensures
        (status & 0x01 != 0) == (status % 2 == 1),
        (status & 0x02 != 0) == ((status / 2) % 2 == 1),
        (status & 0x04 != 0) == ((status / 4) % 2 == 1),
        (status & 0x08 != 0) == ((status / 8) % 2 == 1),
        (status & 0x10 != 0) == ((status / 16) % 2 == 1),
        (status & 0x40 != 0) == ((status / 64) % 2 == 1),
        (status & 0x80 != 0) == ((status / 128) % 2 == 1),
{
}

/// Unpacking a byte and packing the flags gives the byte back, but for bit 5,
/// which reads as 1 whatever was written.
pub proof fn lemma_pack_of_unpack(r: RegisterFile, status: u8)
    ensures
        status_byte(with_status(r, status)) == status | 0x20,
        bit_set(status_byte(with_status(r, status)), 5),
        forall|bit: u8|
            bit < 8 && bit != 5 ==> bit_set(
                status_byte(with_status(r, status)),
                bit,
            ) == bit_set(status, bit),
{
    let flags = with_status(r, status);
    let packed = status_byte(flags);
    lemma_status_bits(status);
    assert((if status & 0x01 != 0 {
        1u8
    } else {
        0u8
    }) + (if status & 0x02 != 0 {
        2u8
    } else {
        0u8
    }) + (if status & 0x04 != 0 {
        4u8
    } else {
        0u8
    }) + (if status & 0x08 != 0 {
        8u8
    } else {
        0u8
    }) + (if status & 0x10 != 0 {
        16u8
    } else {
        0u8
    }) + 32u8 + (if status & 0x40 != 0 {
        64u8
    } else {
        0u8
    }) + (if status & 0x80 != 0 {
        128u8
    } else {
        0u8
    }) == status | 0x20) by (bit_vector);
    assert(packed == status | 0x20);
    assert(((status | 0x20) / 32) % 2 == 1) by (bit_vector);
    lemma_unpack_of_pack(flags);
    assert(with_status(flags, packed) == flags);
}

} // verus!
