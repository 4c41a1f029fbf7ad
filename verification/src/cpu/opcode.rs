//! The opcode table: what each of the 256 opcode bytes means.
//!
//! The meaning of an opcode is stated twice. `entry_for` derives it from the
//! place of the opcode in the instruction matrix, column by column; the
//! executable table lists the 256 entries one by one, row by row. Verus
//! checks that the two agree on every byte.

use vstd::prelude::*;

verus! {

/// How an instruction finds its operand.
#[derive(Clone, Copy, Debug, PartialEq, Eq, Structural)]
pub enum AddressingMode {
    /// No operand.
    Implied,
    /// The operand is the accumulator.
    Accumulator,
    /// The operand is the byte after the opcode.
    Immediate,
    /// The byte after the opcode is an address in page zero.
    ZeroPage,
    /// Page-zero address plus X, staying in page zero.
    ZeroPageX,
    /// Page-zero address plus Y, staying in page zero.
    ZeroPageY,
    /// The two bytes after the opcode are the address.
    Absolute,
    /// Absolute address plus X.
    AbsoluteX,
    /// Absolute address plus Y.
    AbsoluteY,
    /// The address is read from the absolute address given.
    Indirect,
    /// The address is read from page zero at the given address plus X.
    IndexedIndirect,
    /// The address is read from page zero at the given address, then Y is added.
    IndirectIndexed,
    /// A signed displacement from the address of the next instruction.
    Relative,
    /// The address is read from page zero at the given address.
    ZeroPageIndirect,
    /// The address is read from the absolute address given plus X.
    AbsoluteIndexedIndirect,
    /// A page-zero address to test, then a signed displacement.
    ZeroPageRelative,
}

/// One of the three registers that loads, stores, comparisons and stack
/// instructions work on.
#[derive(Clone, Copy, Debug, PartialEq, Eq, Structural)]
pub enum Register {
    A,
    X,
    Y,
}

/// A flag that a conditional branch tests.
#[derive(Clone, Copy, Debug, PartialEq, Eq, Structural)]
pub enum Condition {
    Negative,
    Overflow,
    Carry,
    Zero,
}

/// What an instruction does, apart from how it finds its operand.
#[derive(Clone, Copy, Debug, PartialEq, Eq, Structural)]
pub enum Operation {
    /// Copy the operand into a register.
    Load(Register),
    /// Copy a register into memory.
    Store(Register),
    /// Write zero into memory.
    StoreZero,
    TransferAToX,
    TransferAToY,
    TransferXToA,
    TransferYToA,
    /// Copy the stack pointer into X.
    TransferSToX,
    /// Copy X into the stack pointer; the only transfer that sets no flag.
    TransferXToS,
    /// Add the operand and the carry to the accumulator.
    Add,
    /// Subtract the operand and the borrow from the accumulator.
    Subtract,
    /// Subtract the operand from a register and keep only the flags.
    Compare(Register),
    And,
    Or,
    Xor,
    /// Test the operand against the accumulator and show its two top bits.
    BitTest,
    /// Test the operand against the accumulator, then set in memory the bits
    /// that the accumulator has.
    TestAndSet,
    /// Test the operand against the accumulator, then clear in memory the
    /// bits that the accumulator has.
    TestAndReset,
    ShiftLeft,
    ShiftRight,
    RotateLeft,
    RotateRight,
    /// Add one to the operand, in memory or in the accumulator.
    Increment,
    /// Subtract one from the operand, in memory or in the accumulator.
    Decrement,
    IncrementRegister(Register),
    DecrementRegister(Register),
    Jump,
    /// Jump to a subroutine.
    Call,
    /// Return from a subroutine.
    Return,
    ReturnFromInterrupt,
    /// Branch when the flag has the given value.
    Branch(Condition, bool),
    BranchAlways,
    /// Branch when the given bit of the byte in page zero has the given value.
    BranchOnBit(u8, bool),
    /// Clear the given bit of the byte in page zero.
    ResetMemoryBit(u8),
    /// Set the given bit of the byte in page zero.
    SetMemoryBit(u8),
    Push(Register),
    Pull(Register),
    PushStatus,
    PullStatus,
    SetCarry(bool),
    SetInterruptDisable(bool),
    SetDecimal(bool),
    ClearOverflow,
    /// The software interrupt.
    Break,
    /// Wait for an interrupt.
    Wait,
    /// Stop until the next reset.
    Stop,
    Nop,
}

/// The families of operations. Instructions of one family are executed by
/// the same rules.
#[derive(Clone, Copy, Debug, PartialEq, Eq, Structural)]
pub enum Family {
    /// Loads, stores and register transfers.
    Transfer,
    /// Addition and subtraction.
    Arithmetic,
    /// Comparisons.
    Compare,
    /// The bitwise operations and the bit tests.
    Logic,
    /// Shifts and rotations.
    Shift,
    /// Increments and decrements.
    IncrementDecrement,
    /// Jumps, calls and returns from subroutines.
    Jump,
    /// Branches.
    Branch,
    /// Pushes and pulls.
    Stack,
    /// The instructions that set or clear one flag.
    Flag,
    /// The instructions that set or clear one bit of memory.
    MemoryBit,
    /// The break instruction, the return from an interrupt, and the two
    /// instructions that halt the processor.
    Interrupt,
    /// No operation.
    Nop,
}

/// The assembler's name of an instruction. The four bit instructions carry
/// the number of their bit.
#[derive(Clone, Copy, Debug, PartialEq, Eq, Structural)]
pub enum Mnemonic {
    ADC,
    AND,
    ASL,
    BBR(u8),
    BBS(u8),
    BCC,
    BCS,
    BEQ,
    BIT,
    BMI,
    BNE,
    BPL,
    BRA,
    BRK,
    BVC,
    BVS,
    CLC,
    CLD,
    CLI,
    CLV,
    CMP,
    CPX,
    CPY,
    DEC,
    DEX,
    DEY,
    EOR,
    INC,
    INX,
    INY,
    JMP,
    JSR,
    LDA,
    LDX,
    LDY,
    LSR,
    NOP,
    ORA,
    PHA,
    PHP,
    PHX,
    PHY,
    PLA,
    PLP,
    PLX,
    PLY,
    RMB(u8),
    ROL,
    ROR,
    RTI,
    RTS,
    SBC,
    SEC,
    SED,
    SEI,
    SMB(u8),
    STA,
    STP,
    STX,
    STY,
    STZ,
    TAX,
    TAY,
    TRB,
    TSB,
    TSX,
    TXA,
    TXS,
    TYA,
    WAI,
}

/// One entry of the opcode table.
#[derive(Clone, Copy, Debug, PartialEq, Eq, Structural)]
pub struct OpcodeEntry {
    /// The assembler's name of the instruction.
    pub mnemonic: Mnemonic,
    /// How the instruction finds its operand.
    pub mode: AddressingMode,
    /// The cycles that the instruction takes before any adjustment for a
    /// page crossing or a taken branch.
    pub cycles: u8,
    /// What the instruction does.
    pub operation: Operation,
}

/// The number of operand bytes that follow the opcode.
pub open spec fn operand_bytes(mode: AddressingMode) -> u16 {
    match mode {
        AddressingMode::Implied | AddressingMode::Accumulator => 0,
        AddressingMode::Absolute
        | AddressingMode::AbsoluteX
        | AddressingMode::AbsoluteY
        | AddressingMode::Indirect
        | AddressingMode::AbsoluteIndexedIndirect
        | AddressingMode::ZeroPageRelative => 2,
        _ => 1,
    }
}

/// The assembler's name of an operation.
pub open spec fn mnemonic_of(operation: Operation) -> Mnemonic {
    match operation {
        Operation::Load(Register::A) => Mnemonic::LDA,
        Operation::Load(Register::X) => Mnemonic::LDX,
        Operation::Load(Register::Y) => Mnemonic::LDY,
        Operation::Store(Register::A) => Mnemonic::STA,
        Operation::Store(Register::X) => Mnemonic::STX,
        Operation::Store(Register::Y) => Mnemonic::STY,
        Operation::StoreZero => Mnemonic::STZ,
        Operation::TransferAToX => Mnemonic::TAX,
        Operation::TransferAToY => Mnemonic::TAY,
        Operation::TransferXToA => Mnemonic::TXA,
        Operation::TransferYToA => Mnemonic::TYA,
        Operation::TransferSToX => Mnemonic::TSX,
        Operation::TransferXToS => Mnemonic::TXS,
        Operation::Add => Mnemonic::ADC,
        Operation::Subtract => Mnemonic::SBC,
        Operation::Compare(Register::A) => Mnemonic::CMP,
        Operation::Compare(Register::X) => Mnemonic::CPX,
        Operation::Compare(Register::Y) => Mnemonic::CPY,
        Operation::And => Mnemonic::AND,
        Operation::Or => Mnemonic::ORA,
        Operation::Xor => Mnemonic::EOR,
        Operation::BitTest => Mnemonic::BIT,
        Operation::TestAndSet => Mnemonic::TSB,
        Operation::TestAndReset => Mnemonic::TRB,
        Operation::ShiftLeft => Mnemonic::ASL,
        Operation::ShiftRight => Mnemonic::LSR,
        Operation::RotateLeft => Mnemonic::ROL,
        Operation::RotateRight => Mnemonic::ROR,
        Operation::Increment | Operation::IncrementRegister(Register::A) => Mnemonic::INC,
        Operation::Decrement | Operation::DecrementRegister(Register::A) => Mnemonic::DEC,
        Operation::IncrementRegister(Register::X) => Mnemonic::INX,
        Operation::IncrementRegister(Register::Y) => Mnemonic::INY,
        Operation::DecrementRegister(Register::X) => Mnemonic::DEX,
        Operation::DecrementRegister(Register::Y) => Mnemonic::DEY,
        Operation::Jump => Mnemonic::JMP,
        Operation::Call => Mnemonic::JSR,
        Operation::Return => Mnemonic::RTS,
        Operation::ReturnFromInterrupt => Mnemonic::RTI,
        Operation::Branch(Condition::Negative, false) => Mnemonic::BPL,
        Operation::Branch(Condition::Negative, true) => Mnemonic::BMI,
        Operation::Branch(Condition::Overflow, false) => Mnemonic::BVC,
        Operation::Branch(Condition::Overflow, true) => Mnemonic::BVS,
        Operation::Branch(Condition::Carry, false) => Mnemonic::BCC,
        Operation::Branch(Condition::Carry, true) => Mnemonic::BCS,
        Operation::Branch(Condition::Zero, false) => Mnemonic::BNE,
        Operation::Branch(Condition::Zero, true) => Mnemonic::BEQ,
        Operation::BranchAlways => Mnemonic::BRA,
        Operation::BranchOnBit(bit, false) => Mnemonic::BBR(bit),
        Operation::BranchOnBit(bit, true) => Mnemonic::BBS(bit),
        Operation::ResetMemoryBit(bit) => Mnemonic::RMB(bit),
        Operation::SetMemoryBit(bit) => Mnemonic::SMB(bit),
        Operation::Push(Register::A) => Mnemonic::PHA,
        Operation::Push(Register::X) => Mnemonic::PHX,
        Operation::Push(Register::Y) => Mnemonic::PHY,
        Operation::Pull(Register::A) => Mnemonic::PLA,
        Operation::Pull(Register::X) => Mnemonic::PLX,
        Operation::Pull(Register::Y) => Mnemonic::PLY,
        Operation::PushStatus => Mnemonic::PHP,
        Operation::PullStatus => Mnemonic::PLP,
        Operation::SetCarry(false) => Mnemonic::CLC,
        Operation::SetCarry(true) => Mnemonic::SEC,
        Operation::SetInterruptDisable(false) => Mnemonic::CLI,
        Operation::SetInterruptDisable(true) => Mnemonic::SEI,
        Operation::SetDecimal(false) => Mnemonic::CLD,
        Operation::SetDecimal(true) => Mnemonic::SED,
        Operation::ClearOverflow => Mnemonic::CLV,
        Operation::Break => Mnemonic::BRK,
        Operation::Wait => Mnemonic::WAI,
        Operation::Stop => Mnemonic::STP,
        Operation::Nop => Mnemonic::NOP,
    }
}

/// The family of an operation.
pub open spec fn family_of(operation: Operation) -> Family {
    match operation {
        Operation::Load(_)
        | Operation::Store(_)
        | Operation::StoreZero
        | Operation::TransferAToX
        | Operation::TransferAToY
        | Operation::TransferXToA
        | Operation::TransferYToA
        | Operation::TransferSToX
        | Operation::TransferXToS => Family::Transfer,
        Operation::Add | Operation::Subtract => Family::Arithmetic,
        Operation::Compare(_) => Family::Compare,
        Operation::And
        | Operation::Or
        | Operation::Xor
        | Operation::BitTest
        | Operation::TestAndSet
        | Operation::TestAndReset => Family::Logic,
        Operation::ShiftLeft
        | Operation::ShiftRight
        | Operation::RotateLeft
        | Operation::RotateRight => Family::Shift,
        Operation::Increment
        | Operation::Decrement
        | Operation::IncrementRegister(_)
        | Operation::DecrementRegister(_) => Family::IncrementDecrement,
        Operation::Jump | Operation::Call | Operation::Return => Family::Jump,
        Operation::Branch(_, _) | Operation::BranchAlways | Operation::BranchOnBit(
            _,
            _,
        ) => Family::Branch,
        Operation::Push(_)
        | Operation::Pull(_)
        | Operation::PushStatus
        | Operation::PullStatus => Family::Stack,
        Operation::SetCarry(_)
        | Operation::SetInterruptDisable(_)
        | Operation::SetDecimal(_)
        | Operation::ClearOverflow => Family::Flag,
        Operation::ResetMemoryBit(_) | Operation::SetMemoryBit(_) => Family::MemoryBit,
        Operation::Break
        | Operation::ReturnFromInterrupt
        | Operation::Wait
        | Operation::Stop => Family::Interrupt,
        Operation::Nop => Family::Nop,
    }
}

/// The operation of the accumulator group, chosen by the top three bits of
/// the opcode. Columns 1, 2, 5, 9 and D of the matrix hold this group.
pub open spec fn accumulator_group(opcode: u8) -> Operation {
    match opcode / 32 {
        0 => Operation::Or,
        1 => Operation::And,
        2 => Operation::Xor,
        3 => Operation::Add,
        4 => Operation::Store(Register::A),
        5 => Operation::Load(Register::A),
        6 => Operation::Compare(Register::A),
        _ => Operation::Subtract,
    }
}

/// The operation of the read-modify-write group, chosen by the top three
/// bits of the opcode. Columns 6 and E of the matrix hold this group.
pub open spec fn modify_group(opcode: u8) -> Operation {
    match opcode / 32 {
        0 => Operation::ShiftLeft,
        1 => Operation::RotateLeft,
        2 => Operation::ShiftRight,
        3 => Operation::RotateRight,
        4 => Operation::Store(Register::X),
        5 => Operation::Load(Register::X),
        6 => Operation::Decrement,
        _ => Operation::Increment,
    }
}

/// Whether the opcode stands in an odd row of the matrix.
pub open spec fn in_odd_row(opcode: u8) -> bool {
    (opcode / 16) % 2 == 1
}

/// The operation of an opcode, by its column in the matrix.
pub open spec fn operation_for(opcode: u8) -> Operation {
    let row = opcode / 16;
    match opcode % 16 {
        0x0 => if in_odd_row(opcode) {
            Operation::Branch(
                match row / 4 {
                    0 => Condition::Negative,
                    1 => Condition::Overflow,
                    2 => Condition::Carry,
                    _ => Condition::Zero,
                },
                (row / 2) % 2 == 1,
            )
        } else {
            match row {
                0x0 => Operation::Break,
                0x2 => Operation::Call,
                0x4 => Operation::ReturnFromInterrupt,
                0x6 => Operation::Return,
                0x8 => Operation::BranchAlways,
                0xA => Operation::Load(Register::Y),
                0xC => Operation::Compare(Register::Y),
                _ => Operation::Compare(Register::X),
            }
        },
        0x1 | 0x5 | 0xD => accumulator_group(opcode),
        0x9 => if opcode == 0x89 {
            Operation::BitTest
        } else {
            accumulator_group(opcode)
        },
        0x2 => if in_odd_row(opcode) {
            accumulator_group(opcode)
        } else if opcode == 0xA2 {
            Operation::Load(Register::X)
        } else {
            Operation::Nop
        },
        0x3 | 0xB => if opcode == 0xCB {
            Operation::Wait
        } else if opcode == 0xDB {
            Operation::Stop
        } else {
            Operation::Nop
        },
        0x4 => match row {
            0x0 => Operation::TestAndSet,
            0x1 => Operation::TestAndReset,
            0x2 | 0x3 => Operation::BitTest,
            0x6 | 0x7 => Operation::StoreZero,
            0x8 | 0x9 => Operation::Store(Register::Y),
            0xA | 0xB => Operation::Load(Register::Y),
            0xC => Operation::Compare(Register::Y),
            0xE => Operation::Compare(Register::X),
            _ => Operation::Nop,
        },
        0xC => match row {
            0x0 => Operation::TestAndSet,
            0x1 => Operation::TestAndReset,
            0x2 | 0x3 => Operation::BitTest,
            0x4 | 0x6 | 0x7 => Operation::Jump,
            0x8 => Operation::Store(Register::Y),
            0x9 => Operation::StoreZero,
            0xA | 0xB => Operation::Load(Register::Y),
            0xC => Operation::Compare(Register::Y),
            0xE => Operation::Compare(Register::X),
            _ => Operation::Nop,
        },
        0x6 => modify_group(opcode),
        0xE => if opcode == 0x9E {
            Operation::StoreZero
        } else {
            modify_group(opcode)
        },
        0x7 => if row < 8 {
            Operation::ResetMemoryBit(row)
        } else {
            Operation::SetMemoryBit((row - 8) as u8)
        },
        0xF => if row < 8 {
            Operation::BranchOnBit(row, false)
        } else {
            Operation::BranchOnBit((row - 8) as u8, true)
        },
        0x8 => match row {
            0x0 => Operation::PushStatus,
            0x1 => Operation::SetCarry(false),
            0x2 => Operation::PullStatus,
            0x3 => Operation::SetCarry(true),
            0x4 => Operation::Push(Register::A),
            0x5 => Operation::SetInterruptDisable(false),
            0x6 => Operation::Pull(Register::A),
            0x7 => Operation::SetInterruptDisable(true),
            0x8 => Operation::DecrementRegister(Register::Y),
            0x9 => Operation::TransferYToA,
            0xA => Operation::TransferAToY,
            0xB => Operation::ClearOverflow,
            0xC => Operation::IncrementRegister(Register::Y),
            0xD => Operation::SetDecimal(false),
            0xE => Operation::IncrementRegister(Register::X),
            _ => Operation::SetDecimal(true),
        },
        _ => match row {
            0x0 => Operation::ShiftLeft,
            0x1 => Operation::Increment,
            0x2 => Operation::RotateLeft,
            0x3 => Operation::Decrement,
            0x4 => Operation::ShiftRight,
            0x5 => Operation::Push(Register::Y),
            0x6 => Operation::RotateRight,
            0x7 => Operation::Pull(Register::Y),
            0x8 => Operation::TransferXToA,
            0x9 => Operation::TransferXToS,
            0xA => Operation::TransferAToX,
            0xB => Operation::TransferSToX,
            0xC => Operation::DecrementRegister(Register::X),
            0xD => Operation::Push(Register::X),
            0xE => Operation::Nop,
            _ => Operation::Pull(Register::X),
        },
    }
}

/// The addressing mode of an opcode, by its column in the matrix.
pub open spec fn mode_for(opcode: u8) -> AddressingMode {
    let row = opcode / 16;
    let odd = in_odd_row(opcode);
    match opcode % 16 {
        0x0 => if odd || row == 0x8 {
            AddressingMode::Relative
        } else if row == 0x2 {
            AddressingMode::Absolute
        } else if row >= 0xA {
            AddressingMode::Immediate
        } else {
            AddressingMode::Implied
        },
        0x1 => if odd {
            AddressingMode::IndirectIndexed
        } else {
            AddressingMode::IndexedIndirect
        },
        0x2 => if odd {
            AddressingMode::ZeroPageIndirect
        } else {
            AddressingMode::Immediate
        },
        0x3 | 0x8 | 0xB => AddressingMode::Implied,
        0x4 | 0x5 => if odd && opcode != 0x14 {
            AddressingMode::ZeroPageX
        } else {
            AddressingMode::ZeroPage
        },
        0x6 => if !odd {
            AddressingMode::ZeroPage
        } else if opcode == 0x96 || opcode == 0xB6 {
            AddressingMode::ZeroPageY
        } else {
            AddressingMode::ZeroPageX
        },
        0x7 => AddressingMode::ZeroPage,
        0x9 => if odd {
            AddressingMode::AbsoluteY
        } else {
            AddressingMode::Immediate
        },
        0xA => if row <= 0x4 || row == 0x6 {
            AddressingMode::Accumulator
        } else {
            AddressingMode::Implied
        },
        0xC => if opcode == 0x6C {
            AddressingMode::Indirect
        } else if opcode == 0x7C {
            AddressingMode::AbsoluteIndexedIndirect
        } else if opcode == 0x3C || opcode == 0xBC {
            AddressingMode::AbsoluteX
        } else {
            AddressingMode::Absolute
        },
        0xD => if odd {
            AddressingMode::AbsoluteX
        } else {
            AddressingMode::Absolute
        },
        0xE => if !odd {
            AddressingMode::Absolute
        } else if opcode == 0xBE {
            AddressingMode::AbsoluteY
        } else {
            AddressingMode::AbsoluteX
        },
        _ => AddressingMode::ZeroPageRelative,
    }
}

/// Whether the operation only reads its operand.
pub open spec fn reads_operand(operation: Operation) -> bool {
    match operation {
        Operation::Load(_)
        | Operation::Add
        | Operation::Subtract
        | Operation::Compare(_)
        | Operation::And
        | Operation::Or
        | Operation::Xor
        | Operation::BitTest => true,
        _ => false,
    }
}

/// Whether the operation shifts or rotates its operand.
pub open spec fn shifts_operand(operation: Operation) -> bool {
    match operation {
        Operation::ShiftLeft
        | Operation::ShiftRight
        | Operation::RotateLeft
        | Operation::RotateRight => true,
        _ => false,
    }
}

/// Whether the operation takes one cycle more when an index carries its
/// address into the next page. Stores and increments take that cycle always,
/// so their base count holds it.
pub open spec fn pays_for_page_crossing(operation: Operation) -> bool {
    reads_operand(operation) || shifts_operand(operation)
}

/// The cycles of an instruction that reads its operand.
pub open spec fn read_cycles(mode: AddressingMode) -> u8 {
    match mode {
        AddressingMode::Immediate => 2,
        AddressingMode::ZeroPage => 3,
        AddressingMode::IndirectIndexed | AddressingMode::ZeroPageIndirect => 5,
        AddressingMode::IndexedIndirect => 6,
        _ => 4,
    }
}

/// The cycles of an instruction that writes its operand without reading it.
pub open spec fn write_cycles(mode: AddressingMode) -> u8 {
    match mode {
        AddressingMode::ZeroPage => 3,
        AddressingMode::ZeroPageX | AddressingMode::ZeroPageY | AddressingMode::Absolute => 4,
        AddressingMode::IndexedIndirect | AddressingMode::IndirectIndexed => 6,
        _ => 5,
    }
}

/// The cycles of an instruction that reads its operand and writes it back.
pub open spec fn modify_cycles(mode: AddressingMode) -> u8 {
    match mode {
        AddressingMode::Accumulator => 2,
        AddressingMode::ZeroPage => 5,
        _ => 6,
    }
}

/// The base cycle count of an opcode, from what it does and how it finds its
/// operand. Only the no-operations need the opcode itself.
pub open spec fn cycles_for(opcode: u8) -> u8 {
    let mode = mode_for(opcode);
    match operation_for(opcode) {
        Operation::Store(_) | Operation::StoreZero => write_cycles(mode),
        Operation::Increment | Operation::Decrement => if mode == AddressingMode::AbsoluteX {
            7
        } else {
            modify_cycles(mode)
        },
        Operation::ShiftLeft
        | Operation::ShiftRight
        | Operation::RotateLeft
        | Operation::RotateRight
        | Operation::TestAndSet
        | Operation::TestAndReset => modify_cycles(mode),
        Operation::ResetMemoryBit(_) | Operation::SetMemoryBit(_) | Operation::BranchOnBit(
            _,
            _,
        ) => 5,
        Operation::Branch(_, _) => 2,
        Operation::BranchAlways | Operation::Wait | Operation::Stop => 3,
        Operation::Jump => if mode == AddressingMode::Absolute {
            3
        } else {
            6
        },
        Operation::Call | Operation::Return | Operation::ReturnFromInterrupt => 6,
        Operation::Break => 7,
        Operation::Push(_) | Operation::PushStatus => 3,
        Operation::Pull(_) | Operation::PullStatus => 4,
        Operation::Nop => if opcode == 0x5C {
            8
        } else if opcode == 0xEA {
            2
        } else {
            match mode {
                AddressingMode::Implied => 1,
                AddressingMode::Immediate => 2,
                AddressingMode::ZeroPage => 3,
                _ => 4,
            }
        },
        operation => if reads_operand(operation) {
            read_cycles(mode)
        } else {
            2
        },
    }
}

/// The entry of an opcode. Every byte has one.
pub open spec fn entry_for(opcode: u8) -> OpcodeEntry {
    OpcodeEntry {
        mnemonic: mnemonic_of(operation_for(opcode)),
        mode: mode_for(opcode),
        cycles: cycles_for(opcode),
        operation: operation_for(opcode),
    }
}

impl AddressingMode {
    /// The number of operand bytes that follow the opcode.
    pub fn operand_bytes(self) -> (count: u16)
        ensures
            count == operand_bytes(self),
    {
        match self {
            AddressingMode::Implied | AddressingMode::Accumulator => 0,
            AddressingMode::Absolute
            | AddressingMode::AbsoluteX
            | AddressingMode::AbsoluteY
            | AddressingMode::Indirect
            | AddressingMode::AbsoluteIndexedIndirect
            | AddressingMode::ZeroPageRelative => 2,
            _ => 1,
        }
    }
}

impl Operation {
    /// The family of the operation.
    pub fn family(self) -> (family: Family)
        ensures
            family == family_of(self),
    {
        match self {
            Operation::Load(_)
            | Operation::Store(_)
            | Operation::StoreZero
            | Operation::TransferAToX
            | Operation::TransferAToY
            | Operation::TransferXToA
            | Operation::TransferYToA
            | Operation::TransferSToX
            | Operation::TransferXToS => Family::Transfer,
            Operation::Add | Operation::Subtract => Family::Arithmetic,
            Operation::Compare(_) => Family::Compare,
            Operation::And
            | Operation::Or
            | Operation::Xor
            | Operation::BitTest
            | Operation::TestAndSet
            | Operation::TestAndReset => Family::Logic,
            Operation::ShiftLeft
            | Operation::ShiftRight
            | Operation::RotateLeft
            | Operation::RotateRight => Family::Shift,
            Operation::Increment
            | Operation::Decrement
            | Operation::IncrementRegister(_)
            | Operation::DecrementRegister(_) => Family::IncrementDecrement,
            Operation::Jump | Operation::Call | Operation::Return => Family::Jump,
            Operation::Branch(_, _) | Operation::BranchAlways | Operation::BranchOnBit(
                _,
                _,
            ) => Family::Branch,
            Operation::Push(_)
            | Operation::Pull(_)
            | Operation::PushStatus
            | Operation::PullStatus => Family::Stack,
            Operation::SetCarry(_)
            | Operation::SetInterruptDisable(_)
            | Operation::SetDecimal(_)
            | Operation::ClearOverflow => Family::Flag,
            Operation::ResetMemoryBit(_) | Operation::SetMemoryBit(_) => Family::MemoryBit,
            Operation::Break
            | Operation::ReturnFromInterrupt
            | Operation::Wait
            | Operation::Stop => Family::Interrupt,
            Operation::Nop => Family::Nop,
        }
    }

    /// Whether the operation takes one cycle more when an index carries its
    /// address into the next page.
    pub fn pays_for_page_crossing(self) -> (pays: bool)
        ensures
            pays == pays_for_page_crossing(self),
    {
        match self {
            Operation::Load(_)
            | Operation::Add
            | Operation::Subtract
            | Operation::Compare(_)
            | Operation::And
            | Operation::Or
            | Operation::Xor
            | Operation::BitTest
            | Operation::ShiftLeft
            | Operation::ShiftRight
            | Operation::RotateLeft
            | Operation::RotateRight => true,
            _ => false,
        }
    }
}

impl OpcodeEntry {
    /// The length of the instruction in bytes, opcode included.
    pub fn length(&self) -> (bytes: u16)
        ensures
            bytes == 1 + operand_bytes(self.mode),
    {
        1 + self.mode.operand_bytes()
    }
}

/// One listed entry.
fn listed(mnemonic: Mnemonic, mode: AddressingMode, cycles: u8, operation: Operation) -> (entry:
    OpcodeEntry)
    ensures
        entry == (OpcodeEntry { mnemonic, mode, cycles, operation }),
{
    OpcodeEntry { mnemonic, mode, cycles, operation }
}

/// The entries of opcodes 0x00 to 0x0F.
fn row_0(opcode: u8) -> (entry: OpcodeEntry)
    requires
        opcode / 16 == 0x0,
    ensures
        entry == entry_for(opcode),
{
    match opcode {
        0x00 => listed(Mnemonic::BRK, AddressingMode::Implied, 7, Operation::Break),
        0x01 => listed(Mnemonic::ORA, AddressingMode::IndexedIndirect, 6, Operation::Or),
        0x02 => listed(Mnemonic::NOP, AddressingMode::Immediate, 2, Operation::Nop),
        0x03 => listed(Mnemonic::NOP, AddressingMode::Implied, 1, Operation::Nop),
        0x04 => listed(Mnemonic::TSB, AddressingMode::ZeroPage, 5, Operation::TestAndSet),
        0x05 => listed(Mnemonic::ORA, AddressingMode::ZeroPage, 3, Operation::Or),
        0x06 => listed(Mnemonic::ASL, AddressingMode::ZeroPage, 5, Operation::ShiftLeft),
        0x07 => listed(Mnemonic::RMB(0), AddressingMode::ZeroPage, 5, Operation::ResetMemoryBit(0)),
        0x08 => listed(Mnemonic::PHP, AddressingMode::Implied, 3, Operation::PushStatus),
        0x09 => listed(Mnemonic::ORA, AddressingMode::Immediate, 2, Operation::Or),
        0x0A => listed(Mnemonic::ASL, AddressingMode::Accumulator, 2, Operation::ShiftLeft),
        0x0B => listed(Mnemonic::NOP, AddressingMode::Implied, 1, Operation::Nop),
        0x0C => listed(Mnemonic::TSB, AddressingMode::Absolute, 6, Operation::TestAndSet),
        0x0D => listed(Mnemonic::ORA, AddressingMode::Absolute, 4, Operation::Or),
        0x0E => listed(Mnemonic::ASL, AddressingMode::Absolute, 6, Operation::ShiftLeft),
        _ => listed(
            Mnemonic::BBR(0),
            AddressingMode::ZeroPageRelative,
            5,
            Operation::BranchOnBit(0, false),
        ),
    }
}

/// The entries of opcodes 0x10 to 0x1F.
fn row_1(opcode: u8) -> (entry: OpcodeEntry)
    requires
        opcode / 16 == 0x1,
    ensures
        entry == entry_for(opcode),
{
    match opcode {
        0x10 => listed(
            Mnemonic::BPL,
            AddressingMode::Relative,
            2,
            Operation::Branch(Condition::Negative, false),
        ),
        0x11 => listed(Mnemonic::ORA, AddressingMode::IndirectIndexed, 5, Operation::Or),
        0x12 => listed(Mnemonic::ORA, AddressingMode::ZeroPageIndirect, 5, Operation::Or),
        0x13 => listed(Mnemonic::NOP, AddressingMode::Implied, 1, Operation::Nop),
        0x14 => listed(Mnemonic::TRB, AddressingMode::ZeroPage, 5, Operation::TestAndReset),
        0x15 => listed(Mnemonic::ORA, AddressingMode::ZeroPageX, 4, Operation::Or),
        0x16 => listed(Mnemonic::ASL, AddressingMode::ZeroPageX, 6, Operation::ShiftLeft),
        0x17 => listed(Mnemonic::RMB(1), AddressingMode::ZeroPage, 5, Operation::ResetMemoryBit(1)),
        0x18 => listed(Mnemonic::CLC, AddressingMode::Implied, 2, Operation::SetCarry(false)),
        0x19 => listed(Mnemonic::ORA, AddressingMode::AbsoluteY, 4, Operation::Or),
        0x1A => listed(Mnemonic::INC, AddressingMode::Accumulator, 2, Operation::Increment),
        0x1B => listed(Mnemonic::NOP, AddressingMode::Implied, 1, Operation::Nop),
        0x1C => listed(Mnemonic::TRB, AddressingMode::Absolute, 6, Operation::TestAndReset),
        0x1D => listed(Mnemonic::ORA, AddressingMode::AbsoluteX, 4, Operation::Or),
        0x1E => listed(Mnemonic::ASL, AddressingMode::AbsoluteX, 6, Operation::ShiftLeft),
        _ => listed(
            Mnemonic::BBR(1),
            AddressingMode::ZeroPageRelative,
            5,
            Operation::BranchOnBit(1, false),
        ),
    }
}

/// The entries of opcodes 0x20 to 0x2F.
fn row_2(opcode: u8) -> (entry: OpcodeEntry)
    requires
        opcode / 16 == 0x2,
    ensures
        entry == entry_for(opcode),
{
    match opcode {
        0x20 => listed(Mnemonic::JSR, AddressingMode::Absolute, 6, Operation::Call),
        0x21 => listed(Mnemonic::AND, AddressingMode::IndexedIndirect, 6, Operation::And),
        0x22 => listed(Mnemonic::NOP, AddressingMode::Immediate, 2, Operation::Nop),
        0x23 => listed(Mnemonic::NOP, AddressingMode::Implied, 1, Operation::Nop),
        0x24 => listed(Mnemonic::BIT, AddressingMode::ZeroPage, 3, Operation::BitTest),
        0x25 => listed(Mnemonic::AND, AddressingMode::ZeroPage, 3, Operation::And),
        0x26 => listed(Mnemonic::ROL, AddressingMode::ZeroPage, 5, Operation::RotateLeft),
        0x27 => listed(Mnemonic::RMB(2), AddressingMode::ZeroPage, 5, Operation::ResetMemoryBit(2)),
        0x28 => listed(Mnemonic::PLP, AddressingMode::Implied, 4, Operation::PullStatus),
        0x29 => listed(Mnemonic::AND, AddressingMode::Immediate, 2, Operation::And),
        0x2A => listed(Mnemonic::ROL, AddressingMode::Accumulator, 2, Operation::RotateLeft),
        0x2B => listed(Mnemonic::NOP, AddressingMode::Implied, 1, Operation::Nop),
        0x2C => listed(Mnemonic::BIT, AddressingMode::Absolute, 4, Operation::BitTest),
        0x2D => listed(Mnemonic::AND, AddressingMode::Absolute, 4, Operation::And),
        0x2E => listed(Mnemonic::ROL, AddressingMode::Absolute, 6, Operation::RotateLeft),
        _ => listed(
            Mnemonic::BBR(2),
            AddressingMode::ZeroPageRelative,
            5,
            Operation::BranchOnBit(2, false),
        ),
    }
}

/// The entries of opcodes 0x30 to 0x3F.
fn row_3(opcode: u8) -> (entry: OpcodeEntry)
    requires
        opcode / 16 == 0x3,
    ensures
        entry == entry_for(opcode),
{
    match opcode {
        0x30 => listed(
            Mnemonic::BMI,
            AddressingMode::Relative,
            2,
            Operation::Branch(Condition::Negative, true),
        ),
        0x31 => listed(Mnemonic::AND, AddressingMode::IndirectIndexed, 5, Operation::And),
        0x32 => listed(Mnemonic::AND, AddressingMode::ZeroPageIndirect, 5, Operation::And),
        0x33 => listed(Mnemonic::NOP, AddressingMode::Implied, 1, Operation::Nop),
        0x34 => listed(Mnemonic::BIT, AddressingMode::ZeroPageX, 4, Operation::BitTest),
        0x35 => listed(Mnemonic::AND, AddressingMode::ZeroPageX, 4, Operation::And),
        0x36 => listed(Mnemonic::ROL, AddressingMode::ZeroPageX, 6, Operation::RotateLeft),
        0x37 => listed(Mnemonic::RMB(3), AddressingMode::ZeroPage, 5, Operation::ResetMemoryBit(3)),
        0x38 => listed(Mnemonic::SEC, AddressingMode::Implied, 2, Operation::SetCarry(true)),
        0x39 => listed(Mnemonic::AND, AddressingMode::AbsoluteY, 4, Operation::And),
        0x3A => listed(Mnemonic::DEC, AddressingMode::Accumulator, 2, Operation::Decrement),
        0x3B => listed(Mnemonic::NOP, AddressingMode::Implied, 1, Operation::Nop),
        0x3C => listed(Mnemonic::BIT, AddressingMode::AbsoluteX, 4, Operation::BitTest),
        0x3D => listed(Mnemonic::AND, AddressingMode::AbsoluteX, 4, Operation::And),
        0x3E => listed(Mnemonic::ROL, AddressingMode::AbsoluteX, 6, Operation::RotateLeft),
        _ => listed(
            Mnemonic::BBR(3),
            AddressingMode::ZeroPageRelative,
            5,
            Operation::BranchOnBit(3, false),
        ),
    }
}

/// The entries of opcodes 0x40 to 0x4F.
fn row_4(opcode: u8) -> (entry: OpcodeEntry)
    requires
        opcode / 16 == 0x4,
    ensures
        entry == entry_for(opcode),
{
    match opcode {
        0x40 => listed(Mnemonic::RTI, AddressingMode::Implied, 6, Operation::ReturnFromInterrupt),
        0x41 => listed(Mnemonic::EOR, AddressingMode::IndexedIndirect, 6, Operation::Xor),
        0x42 => listed(Mnemonic::NOP, AddressingMode::Immediate, 2, Operation::Nop),
        0x43 => listed(Mnemonic::NOP, AddressingMode::Implied, 1, Operation::Nop),
        0x44 => listed(Mnemonic::NOP, AddressingMode::ZeroPage, 3, Operation::Nop),
        0x45 => listed(Mnemonic::EOR, AddressingMode::ZeroPage, 3, Operation::Xor),
        0x46 => listed(Mnemonic::LSR, AddressingMode::ZeroPage, 5, Operation::ShiftRight),
        0x47 => listed(Mnemonic::RMB(4), AddressingMode::ZeroPage, 5, Operation::ResetMemoryBit(4)),
        0x48 => listed(Mnemonic::PHA, AddressingMode::Implied, 3, Operation::Push(Register::A)),
        0x49 => listed(Mnemonic::EOR, AddressingMode::Immediate, 2, Operation::Xor),
        0x4A => listed(Mnemonic::LSR, AddressingMode::Accumulator, 2, Operation::ShiftRight),
        0x4B => listed(Mnemonic::NOP, AddressingMode::Implied, 1, Operation::Nop),
        0x4C => listed(Mnemonic::JMP, AddressingMode::Absolute, 3, Operation::Jump),
        0x4D => listed(Mnemonic::EOR, AddressingMode::Absolute, 4, Operation::Xor),
        0x4E => listed(Mnemonic::LSR, AddressingMode::Absolute, 6, Operation::ShiftRight),
        _ => listed(
            Mnemonic::BBR(4),
            AddressingMode::ZeroPageRelative,
            5,
            Operation::BranchOnBit(4, false),
        ),
    }
}

/// The entries of opcodes 0x50 to 0x5F.
fn row_5(opcode: u8) -> (entry: OpcodeEntry)
    requires
        opcode / 16 == 0x5,
    ensures
        entry == entry_for(opcode),
{
    match opcode {
        0x50 => listed(
            Mnemonic::BVC,
            AddressingMode::Relative,
            2,
            Operation::Branch(Condition::Overflow, false),
        ),
        0x51 => listed(Mnemonic::EOR, AddressingMode::IndirectIndexed, 5, Operation::Xor),
        0x52 => listed(Mnemonic::EOR, AddressingMode::ZeroPageIndirect, 5, Operation::Xor),
        0x53 => listed(Mnemonic::NOP, AddressingMode::Implied, 1, Operation::Nop),
        0x54 => listed(Mnemonic::NOP, AddressingMode::ZeroPageX, 4, Operation::Nop),
        0x55 => listed(Mnemonic::EOR, AddressingMode::ZeroPageX, 4, Operation::Xor),
        0x56 => listed(Mnemonic::LSR, AddressingMode::ZeroPageX, 6, Operation::ShiftRight),
        0x57 => listed(Mnemonic::RMB(5), AddressingMode::ZeroPage, 5, Operation::ResetMemoryBit(5)),
        0x58 => listed(
            Mnemonic::CLI,
            AddressingMode::Implied,
            2,
            Operation::SetInterruptDisable(false),
        ),
        0x59 => listed(Mnemonic::EOR, AddressingMode::AbsoluteY, 4, Operation::Xor),
        0x5A => listed(Mnemonic::PHY, AddressingMode::Implied, 3, Operation::Push(Register::Y)),
        0x5B => listed(Mnemonic::NOP, AddressingMode::Implied, 1, Operation::Nop),
        0x5C => listed(Mnemonic::NOP, AddressingMode::Absolute, 8, Operation::Nop),
        0x5D => listed(Mnemonic::EOR, AddressingMode::AbsoluteX, 4, Operation::Xor),
        0x5E => listed(Mnemonic::LSR, AddressingMode::AbsoluteX, 6, Operation::ShiftRight),
        _ => listed(
            Mnemonic::BBR(5),
            AddressingMode::ZeroPageRelative,
            5,
            Operation::BranchOnBit(5, false),
        ),
    }
}

/// The entries of opcodes 0x60 to 0x6F.
fn row_6(opcode: u8) -> (entry: OpcodeEntry)
    requires
        opcode / 16 == 0x6,
    ensures
        entry == entry_for(opcode),
{
    match opcode {
        0x60 => listed(Mnemonic::RTS, AddressingMode::Implied, 6, Operation::Return),
        0x61 => listed(Mnemonic::ADC, AddressingMode::IndexedIndirect, 6, Operation::Add),
        0x62 => listed(Mnemonic::NOP, AddressingMode::Immediate, 2, Operation::Nop),
        0x63 => listed(Mnemonic::NOP, AddressingMode::Implied, 1, Operation::Nop),
        0x64 => listed(Mnemonic::STZ, AddressingMode::ZeroPage, 3, Operation::StoreZero),
        0x65 => listed(Mnemonic::ADC, AddressingMode::ZeroPage, 3, Operation::Add),
        0x66 => listed(Mnemonic::ROR, AddressingMode::ZeroPage, 5, Operation::RotateRight),
        0x67 => listed(Mnemonic::RMB(6), AddressingMode::ZeroPage, 5, Operation::ResetMemoryBit(6)),
        0x68 => listed(Mnemonic::PLA, AddressingMode::Implied, 4, Operation::Pull(Register::A)),
        0x69 => listed(Mnemonic::ADC, AddressingMode::Immediate, 2, Operation::Add),
        0x6A => listed(Mnemonic::ROR, AddressingMode::Accumulator, 2, Operation::RotateRight),
        0x6B => listed(Mnemonic::NOP, AddressingMode::Implied, 1, Operation::Nop),
        0x6C => listed(Mnemonic::JMP, AddressingMode::Indirect, 6, Operation::Jump),
        0x6D => listed(Mnemonic::ADC, AddressingMode::Absolute, 4, Operation::Add),
        0x6E => listed(Mnemonic::ROR, AddressingMode::Absolute, 6, Operation::RotateRight),
        _ => listed(
            Mnemonic::BBR(6),
            AddressingMode::ZeroPageRelative,
            5,
            Operation::BranchOnBit(6, false),
        ),
    }
}

/// The entries of opcodes 0x70 to 0x7F.
fn row_7(opcode: u8) -> (entry: OpcodeEntry)
    requires
        opcode / 16 == 0x7,
    ensures
        entry == entry_for(opcode),
{
    match opcode {
        0x70 => listed(
            Mnemonic::BVS,
            AddressingMode::Relative,
            2,
            Operation::Branch(Condition::Overflow, true),
        ),
        0x71 => listed(Mnemonic::ADC, AddressingMode::IndirectIndexed, 5, Operation::Add),
        0x72 => listed(Mnemonic::ADC, AddressingMode::ZeroPageIndirect, 5, Operation::Add),
        0x73 => listed(Mnemonic::NOP, AddressingMode::Implied, 1, Operation::Nop),
        0x74 => listed(Mnemonic::STZ, AddressingMode::ZeroPageX, 4, Operation::StoreZero),
        0x75 => listed(Mnemonic::ADC, AddressingMode::ZeroPageX, 4, Operation::Add),
        0x76 => listed(Mnemonic::ROR, AddressingMode::ZeroPageX, 6, Operation::RotateRight),
        0x77 => listed(Mnemonic::RMB(7), AddressingMode::ZeroPage, 5, Operation::ResetMemoryBit(7)),
        0x78 => listed(
            Mnemonic::SEI,
            AddressingMode::Implied,
            2,
            Operation::SetInterruptDisable(true),
        ),
        0x79 => listed(Mnemonic::ADC, AddressingMode::AbsoluteY, 4, Operation::Add),
        0x7A => listed(Mnemonic::PLY, AddressingMode::Implied, 4, Operation::Pull(Register::Y)),
        0x7B => listed(Mnemonic::NOP, AddressingMode::Implied, 1, Operation::Nop),
        0x7C => listed(Mnemonic::JMP, AddressingMode::AbsoluteIndexedIndirect, 6, Operation::Jump),
        0x7D => listed(Mnemonic::ADC, AddressingMode::AbsoluteX, 4, Operation::Add),
        0x7E => listed(Mnemonic::ROR, AddressingMode::AbsoluteX, 6, Operation::RotateRight),
        _ => listed(
            Mnemonic::BBR(7),
            AddressingMode::ZeroPageRelative,
            5,
            Operation::BranchOnBit(7, false),
        ),
    }
}

/// The entries of opcodes 0x80 to 0x8F.
fn row_8(opcode: u8) -> (entry: OpcodeEntry)
    requires
        opcode / 16 == 0x8,
    ensures
        entry == entry_for(opcode),
{
    match opcode {
        0x80 => listed(Mnemonic::BRA, AddressingMode::Relative, 3, Operation::BranchAlways),
        0x81 => listed(
            Mnemonic::STA,
            AddressingMode::IndexedIndirect,
            6,
            Operation::Store(Register::A),
        ),
        0x82 => listed(Mnemonic::NOP, AddressingMode::Immediate, 2, Operation::Nop),
        0x83 => listed(Mnemonic::NOP, AddressingMode::Implied, 1, Operation::Nop),
        0x84 => listed(Mnemonic::STY, AddressingMode::ZeroPage, 3, Operation::Store(Register::Y)),
        0x85 => listed(Mnemonic::STA, AddressingMode::ZeroPage, 3, Operation::Store(Register::A)),
        0x86 => listed(Mnemonic::STX, AddressingMode::ZeroPage, 3, Operation::Store(Register::X)),
        0x87 => listed(Mnemonic::SMB(0), AddressingMode::ZeroPage, 5, Operation::SetMemoryBit(0)),
        0x88 => listed(
            Mnemonic::DEY,
            AddressingMode::Implied,
            2,
            Operation::DecrementRegister(Register::Y),
        ),
        0x89 => listed(Mnemonic::BIT, AddressingMode::Immediate, 2, Operation::BitTest),
        0x8A => listed(Mnemonic::TXA, AddressingMode::Implied, 2, Operation::TransferXToA),
        0x8B => listed(Mnemonic::NOP, AddressingMode::Implied, 1, Operation::Nop),
        0x8C => listed(Mnemonic::STY, AddressingMode::Absolute, 4, Operation::Store(Register::Y)),
        0x8D => listed(Mnemonic::STA, AddressingMode::Absolute, 4, Operation::Store(Register::A)),
        0x8E => listed(Mnemonic::STX, AddressingMode::Absolute, 4, Operation::Store(Register::X)),
        _ => listed(
            Mnemonic::BBS(0),
            AddressingMode::ZeroPageRelative,
            5,
            Operation::BranchOnBit(0, true),
        ),
    }
}

/// The entries of opcodes 0x90 to 0x9F.
fn row_9(opcode: u8) -> (entry: OpcodeEntry)
    requires
        opcode / 16 == 0x9,
    ensures
        entry == entry_for(opcode),
{
    match opcode {
        0x90 => listed(
            Mnemonic::BCC,
            AddressingMode::Relative,
            2,
            Operation::Branch(Condition::Carry, false),
        ),
        0x91 => listed(
            Mnemonic::STA,
            AddressingMode::IndirectIndexed,
            6,
            Operation::Store(Register::A),
        ),
        0x92 => listed(
            Mnemonic::STA,
            AddressingMode::ZeroPageIndirect,
            5,
            Operation::Store(Register::A),
        ),
        0x93 => listed(Mnemonic::NOP, AddressingMode::Implied, 1, Operation::Nop),
        0x94 => listed(Mnemonic::STY, AddressingMode::ZeroPageX, 4, Operation::Store(Register::Y)),
        0x95 => listed(Mnemonic::STA, AddressingMode::ZeroPageX, 4, Operation::Store(Register::A)),
        0x96 => listed(Mnemonic::STX, AddressingMode::ZeroPageY, 4, Operation::Store(Register::X)),
        0x97 => listed(Mnemonic::SMB(1), AddressingMode::ZeroPage, 5, Operation::SetMemoryBit(1)),
        0x98 => listed(Mnemonic::TYA, AddressingMode::Implied, 2, Operation::TransferYToA),
        0x99 => listed(Mnemonic::STA, AddressingMode::AbsoluteY, 5, Operation::Store(Register::A)),
        0x9A => listed(Mnemonic::TXS, AddressingMode::Implied, 2, Operation::TransferXToS),
        0x9B => listed(Mnemonic::NOP, AddressingMode::Implied, 1, Operation::Nop),
        0x9C => listed(Mnemonic::STZ, AddressingMode::Absolute, 4, Operation::StoreZero),
        0x9D => listed(Mnemonic::STA, AddressingMode::AbsoluteX, 5, Operation::Store(Register::A)),
        0x9E => listed(Mnemonic::STZ, AddressingMode::AbsoluteX, 5, Operation::StoreZero),
        _ => listed(
            Mnemonic::BBS(1),
            AddressingMode::ZeroPageRelative,
            5,
            Operation::BranchOnBit(1, true),
        ),
    }
}

/// The entries of opcodes 0xA0 to 0xAF.
fn row_a(opcode: u8) -> (entry: OpcodeEntry)
    requires
        opcode / 16 == 0xA,
    ensures
        entry == entry_for(opcode),
{
    match opcode {
        0xA0 => listed(Mnemonic::LDY, AddressingMode::Immediate, 2, Operation::Load(Register::Y)),
        0xA1 => listed(
            Mnemonic::LDA,
            AddressingMode::IndexedIndirect,
            6,
            Operation::Load(Register::A),
        ),
        0xA2 => listed(Mnemonic::LDX, AddressingMode::Immediate, 2, Operation::Load(Register::X)),
        0xA3 => listed(Mnemonic::NOP, AddressingMode::Implied, 1, Operation::Nop),
        0xA4 => listed(Mnemonic::LDY, AddressingMode::ZeroPage, 3, Operation::Load(Register::Y)),
        0xA5 => listed(Mnemonic::LDA, AddressingMode::ZeroPage, 3, Operation::Load(Register::A)),
        0xA6 => listed(Mnemonic::LDX, AddressingMode::ZeroPage, 3, Operation::Load(Register::X)),
        0xA7 => listed(Mnemonic::SMB(2), AddressingMode::ZeroPage, 5, Operation::SetMemoryBit(2)),
        0xA8 => listed(Mnemonic::TAY, AddressingMode::Implied, 2, Operation::TransferAToY),
        0xA9 => listed(Mnemonic::LDA, AddressingMode::Immediate, 2, Operation::Load(Register::A)),
        0xAA => listed(Mnemonic::TAX, AddressingMode::Implied, 2, Operation::TransferAToX),
        0xAB => listed(Mnemonic::NOP, AddressingMode::Implied, 1, Operation::Nop),
        0xAC => listed(Mnemonic::LDY, AddressingMode::Absolute, 4, Operation::Load(Register::Y)),
        0xAD => listed(Mnemonic::LDA, AddressingMode::Absolute, 4, Operation::Load(Register::A)),
        0xAE => listed(Mnemonic::LDX, AddressingMode::Absolute, 4, Operation::Load(Register::X)),
        _ => listed(
            Mnemonic::BBS(2),
            AddressingMode::ZeroPageRelative,
            5,
            Operation::BranchOnBit(2, true),
        ),
    }
}

/// The entries of opcodes 0xB0 to 0xBF.
fn row_b(opcode: u8) -> (entry: OpcodeEntry)
    requires
        opcode / 16 == 0xB,
    ensures
        entry == entry_for(opcode),
{
    match opcode {
        0xB0 => listed(
            Mnemonic::BCS,
            AddressingMode::Relative,
            2,
            Operation::Branch(Condition::Carry, true),
        ),
        0xB1 => listed(
            Mnemonic::LDA,
            AddressingMode::IndirectIndexed,
            5,
            Operation::Load(Register::A),
        ),
        0xB2 => listed(
            Mnemonic::LDA,
            AddressingMode::ZeroPageIndirect,
            5,
            Operation::Load(Register::A),
        ),
        0xB3 => listed(Mnemonic::NOP, AddressingMode::Implied, 1, Operation::Nop),
        0xB4 => listed(Mnemonic::LDY, AddressingMode::ZeroPageX, 4, Operation::Load(Register::Y)),
        0xB5 => listed(Mnemonic::LDA, AddressingMode::ZeroPageX, 4, Operation::Load(Register::A)),
        0xB6 => listed(Mnemonic::LDX, AddressingMode::ZeroPageY, 4, Operation::Load(Register::X)),
        0xB7 => listed(Mnemonic::SMB(3), AddressingMode::ZeroPage, 5, Operation::SetMemoryBit(3)),
        0xB8 => listed(Mnemonic::CLV, AddressingMode::Implied, 2, Operation::ClearOverflow),
        0xB9 => listed(Mnemonic::LDA, AddressingMode::AbsoluteY, 4, Operation::Load(Register::A)),
        0xBA => listed(Mnemonic::TSX, AddressingMode::Implied, 2, Operation::TransferSToX),
        0xBB => listed(Mnemonic::NOP, AddressingMode::Implied, 1, Operation::Nop),
        0xBC => listed(Mnemonic::LDY, AddressingMode::AbsoluteX, 4, Operation::Load(Register::Y)),
        0xBD => listed(Mnemonic::LDA, AddressingMode::AbsoluteX, 4, Operation::Load(Register::A)),
        0xBE => listed(Mnemonic::LDX, AddressingMode::AbsoluteY, 4, Operation::Load(Register::X)),
        _ => listed(
            Mnemonic::BBS(3),
            AddressingMode::ZeroPageRelative,
            5,
            Operation::BranchOnBit(3, true),
        ),
    }
}

/// The entries of opcodes 0xC0 to 0xCF.
fn row_c(opcode: u8) -> (entry: OpcodeEntry)
    requires
        opcode / 16 == 0xC,
    ensures
        entry == entry_for(opcode),
{
    match opcode {
        0xC0 => listed(
            Mnemonic::CPY,
            AddressingMode::Immediate,
            2,
            Operation::Compare(Register::Y),
        ),
        0xC1 => listed(
            Mnemonic::CMP,
            AddressingMode::IndexedIndirect,
            6,
            Operation::Compare(Register::A),
        ),
        0xC2 => listed(Mnemonic::NOP, AddressingMode::Immediate, 2, Operation::Nop),
        0xC3 => listed(Mnemonic::NOP, AddressingMode::Implied, 1, Operation::Nop),
        0xC4 => listed(Mnemonic::CPY, AddressingMode::ZeroPage, 3, Operation::Compare(Register::Y)),
        0xC5 => listed(Mnemonic::CMP, AddressingMode::ZeroPage, 3, Operation::Compare(Register::A)),
        0xC6 => listed(Mnemonic::DEC, AddressingMode::ZeroPage, 5, Operation::Decrement),
        0xC7 => listed(Mnemonic::SMB(4), AddressingMode::ZeroPage, 5, Operation::SetMemoryBit(4)),
        0xC8 => listed(
            Mnemonic::INY,
            AddressingMode::Implied,
            2,
            Operation::IncrementRegister(Register::Y),
        ),
        0xC9 => listed(
            Mnemonic::CMP,
            AddressingMode::Immediate,
            2,
            Operation::Compare(Register::A),
        ),
        0xCA => listed(
            Mnemonic::DEX,
            AddressingMode::Implied,
            2,
            Operation::DecrementRegister(Register::X),
        ),
        0xCB => listed(Mnemonic::WAI, AddressingMode::Implied, 3, Operation::Wait),
        0xCC => listed(Mnemonic::CPY, AddressingMode::Absolute, 4, Operation::Compare(Register::Y)),
        0xCD => listed(Mnemonic::CMP, AddressingMode::Absolute, 4, Operation::Compare(Register::A)),
        0xCE => listed(Mnemonic::DEC, AddressingMode::Absolute, 6, Operation::Decrement),
        _ => listed(
            Mnemonic::BBS(4),
            AddressingMode::ZeroPageRelative,
            5,
            Operation::BranchOnBit(4, true),
        ),
    }
}

/// The entries of opcodes 0xD0 to 0xDF.
fn row_d(opcode: u8) -> (entry: OpcodeEntry)
    requires
        opcode / 16 == 0xD,
    ensures
        entry == entry_for(opcode),
{
    match opcode {
        0xD0 => listed(
            Mnemonic::BNE,
            AddressingMode::Relative,
            2,
            Operation::Branch(Condition::Zero, false),
        ),
        0xD1 => listed(
            Mnemonic::CMP,
            AddressingMode::IndirectIndexed,
            5,
            Operation::Compare(Register::A),
        ),
        0xD2 => listed(
            Mnemonic::CMP,
            AddressingMode::ZeroPageIndirect,
            5,
            Operation::Compare(Register::A),
        ),
        0xD3 => listed(Mnemonic::NOP, AddressingMode::Implied, 1, Operation::Nop),
        0xD4 => listed(Mnemonic::NOP, AddressingMode::ZeroPageX, 4, Operation::Nop),
        0xD5 => listed(
            Mnemonic::CMP,
            AddressingMode::ZeroPageX,
            4,
            Operation::Compare(Register::A),
        ),
        0xD6 => listed(Mnemonic::DEC, AddressingMode::ZeroPageX, 6, Operation::Decrement),
        0xD7 => listed(Mnemonic::SMB(5), AddressingMode::ZeroPage, 5, Operation::SetMemoryBit(5)),
        0xD8 => listed(Mnemonic::CLD, AddressingMode::Implied, 2, Operation::SetDecimal(false)),
        0xD9 => listed(
            Mnemonic::CMP,
            AddressingMode::AbsoluteY,
            4,
            Operation::Compare(Register::A),
        ),
        0xDA => listed(Mnemonic::PHX, AddressingMode::Implied, 3, Operation::Push(Register::X)),
        0xDB => listed(Mnemonic::STP, AddressingMode::Implied, 3, Operation::Stop),
        0xDC => listed(Mnemonic::NOP, AddressingMode::Absolute, 4, Operation::Nop),
        0xDD => listed(
            Mnemonic::CMP,
            AddressingMode::AbsoluteX,
            4,
            Operation::Compare(Register::A),
        ),
        0xDE => listed(Mnemonic::DEC, AddressingMode::AbsoluteX, 7, Operation::Decrement),
        _ => listed(
            Mnemonic::BBS(5),
            AddressingMode::ZeroPageRelative,
            5,
            Operation::BranchOnBit(5, true),
        ),
    }
}

/// The entries of opcodes 0xE0 to 0xEF.
fn row_e(opcode: u8) -> (entry: OpcodeEntry)
    requires
        opcode / 16 == 0xE,
    ensures
        entry == entry_for(opcode),
{
    match opcode {
        0xE0 => listed(
            Mnemonic::CPX,
            AddressingMode::Immediate,
            2,
            Operation::Compare(Register::X),
        ),
        0xE1 => listed(Mnemonic::SBC, AddressingMode::IndexedIndirect, 6, Operation::Subtract),
        0xE2 => listed(Mnemonic::NOP, AddressingMode::Immediate, 2, Operation::Nop),
        0xE3 => listed(Mnemonic::NOP, AddressingMode::Implied, 1, Operation::Nop),
        0xE4 => listed(Mnemonic::CPX, AddressingMode::ZeroPage, 3, Operation::Compare(Register::X)),
        0xE5 => listed(Mnemonic::SBC, AddressingMode::ZeroPage, 3, Operation::Subtract),
        0xE6 => listed(Mnemonic::INC, AddressingMode::ZeroPage, 5, Operation::Increment),
        0xE7 => listed(Mnemonic::SMB(6), AddressingMode::ZeroPage, 5, Operation::SetMemoryBit(6)),
        0xE8 => listed(
            Mnemonic::INX,
            AddressingMode::Implied,
            2,
            Operation::IncrementRegister(Register::X),
        ),
        0xE9 => listed(Mnemonic::SBC, AddressingMode::Immediate, 2, Operation::Subtract),
        0xEA => listed(Mnemonic::NOP, AddressingMode::Implied, 2, Operation::Nop),
        0xEB => listed(Mnemonic::NOP, AddressingMode::Implied, 1, Operation::Nop),
        0xEC => listed(Mnemonic::CPX, AddressingMode::Absolute, 4, Operation::Compare(Register::X)),
        0xED => listed(Mnemonic::SBC, AddressingMode::Absolute, 4, Operation::Subtract),
        0xEE => listed(Mnemonic::INC, AddressingMode::Absolute, 6, Operation::Increment),
        _ => listed(
            Mnemonic::BBS(6),
            AddressingMode::ZeroPageRelative,
            5,
            Operation::BranchOnBit(6, true),
        ),
    }
}

/// The entries of opcodes 0xF0 to 0xFF.
fn row_f(opcode: u8) -> (entry: OpcodeEntry)
    requires
        opcode / 16 == 0xF,
    ensures
        entry == entry_for(opcode),
{
    match opcode {
        0xF0 => listed(
            Mnemonic::BEQ,
            AddressingMode::Relative,
            2,
            Operation::Branch(Condition::Zero, true),
        ),
        0xF1 => listed(Mnemonic::SBC, AddressingMode::IndirectIndexed, 5, Operation::Subtract),
        0xF2 => listed(Mnemonic::SBC, AddressingMode::ZeroPageIndirect, 5, Operation::Subtract),
        0xF3 => listed(Mnemonic::NOP, AddressingMode::Implied, 1, Operation::Nop),
        0xF4 => listed(Mnemonic::NOP, AddressingMode::ZeroPageX, 4, Operation::Nop),
        0xF5 => listed(Mnemonic::SBC, AddressingMode::ZeroPageX, 4, Operation::Subtract),
        0xF6 => listed(Mnemonic::INC, AddressingMode::ZeroPageX, 6, Operation::Increment),
        0xF7 => listed(Mnemonic::SMB(7), AddressingMode::ZeroPage, 5, Operation::SetMemoryBit(7)),
        0xF8 => listed(Mnemonic::SED, AddressingMode::Implied, 2, Operation::SetDecimal(true)),
        0xF9 => listed(Mnemonic::SBC, AddressingMode::AbsoluteY, 4, Operation::Subtract),
        0xFA => listed(Mnemonic::PLX, AddressingMode::Implied, 4, Operation::Pull(Register::X)),
        0xFB => listed(Mnemonic::NOP, AddressingMode::Implied, 1, Operation::Nop),
        0xFC => listed(Mnemonic::NOP, AddressingMode::Absolute, 4, Operation::Nop),
        0xFD => listed(Mnemonic::SBC, AddressingMode::AbsoluteX, 4, Operation::Subtract),
        0xFE => listed(Mnemonic::INC, AddressingMode::AbsoluteX, 7, Operation::Increment),
        _ => listed(
            Mnemonic::BBS(7),
            AddressingMode::ZeroPageRelative,
            5,
            Operation::BranchOnBit(7, true),
        ),
    }
}

/// Decodes one opcode byte. Every byte decodes: those that the processor
/// gives no instruction of their own are no-operations with a length and a
/// cycle count.
pub fn decode(opcode: u8) -> (entry: OpcodeEntry)
    ensures
        entry == entry_for(opcode),
{
    match opcode / 16 {
        0x0 => row_0(opcode),
        0x1 => row_1(opcode),
        0x2 => row_2(opcode),
        0x3 => row_3(opcode),
        0x4 => row_4(opcode),
        0x5 => row_5(opcode),
        0x6 => row_6(opcode),
        0x7 => row_7(opcode),
        0x8 => row_8(opcode),
        0x9 => row_9(opcode),
        0xA => row_a(opcode),
        0xB => row_b(opcode),
        0xC => row_c(opcode),
        0xD => row_d(opcode),
        0xE => row_e(opcode),
        _ => row_f(opcode),
    }
}

/// The whole table as a sequence: the entry of each opcode at the index of
/// the opcode.
pub open spec fn listing() -> Seq<OpcodeEntry> {
    Seq::new(256, |opcode: int| entry_for(opcode as u8))
}

/// The opcode table: 256 entries, built once and only read afterwards. One
/// table serves any number of processors.
pub struct OpcodeTable {
    entries: Vec<OpcodeEntry>,
}

impl OpcodeTable {
    /// Whether the table holds, under each opcode, the entry of that opcode.
    #[verifier::type_invariant]
    spec fn complete(&self) -> bool {
        &&& self.entries@.len() == 256
        &&& forall|opcode: u8| #[trigger] self.entries@[opcode as int] == entry_for(opcode)
    }

    /// The entries, in opcode order.
    pub closed spec fn view(&self) -> Seq<OpcodeEntry> {
        self.entries@
    }

    /// Builds the table.
    pub fn new() -> (table: OpcodeTable)
        ensures
            table@ == listing(),
    {
        let mut entries: Vec<OpcodeEntry> = Vec::with_capacity(256);
        let mut opcode: u8 = 0;
        while opcode < 255
            invariant
                entries@.len() == opcode,
                forall|earlier: u8|
                    earlier < opcode ==> #[trigger] entries@[earlier as int] == entry_for(earlier),
            decreases 255 - opcode,
        {
            entries.push(decode(opcode));
            opcode = opcode + 1;
        }
        entries.push(decode(255));
        proof {
            assert forall|i: int| 0 <= i < 256 implies entries@[i] == listing()[i] by {
                assert(entries@[(i as u8) as int] == entry_for(i as u8));
            }
            assert(entries@ =~= listing());
        }
        OpcodeTable { entries }
    }

    /// The entry of an opcode, by one indexed read.
    pub fn lookup(&self, opcode: u8) -> (entry: OpcodeEntry)
        ensures
            entry == entry_for(opcode),
            entry == self@[opcode as int],
    {
        proof {
            use_type_invariant(self);
        }
        self.entries[opcode as usize]
    }
}

/// Every opcode has an entry that costs between one and eight cycles, names
/// the instruction by the assembler's name of its operation, and is between
/// one and three bytes long.
pub proof fn lemma_every_opcode_decodes(opcode: u8)
    ensures
        1 <= entry_for(opcode).cycles <= 8,
        entry_for(opcode).mnemonic == mnemonic_of(entry_for(opcode).operation),
        1 <= 1 + operand_bytes(entry_for(opcode).mode) <= 3,
        entry_for(opcode).operation matches Operation::BranchOnBit(bit, _) ==> bit < 8,
        entry_for(opcode).operation matches Operation::ResetMemoryBit(bit) ==> bit < 8,
        entry_for(opcode).operation matches Operation::SetMemoryBit(bit) ==> bit < 8,
{
}

} // verus!
