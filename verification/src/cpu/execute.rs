//! Instruction execution: what each operation does to the registers and to
//! memory, and how many cycles it takes.

use crate::cpu::addressing::Operand;
use crate::cpu::alu::{
    add_binary, add_decimal, binary_difference, binary_sum, bit_set, clear_bit, compare,
    comparison, decimal_difference, decimal_sum, decrement, decremented, increment, incremented,
    rotate_left, rotate_right, rotated_left, rotated_right, set_bit, shift_left, shift_right,
    shifted_left, shifted_right, subtract_binary, subtract_decimal, test_bit, with_bit_clear,
    with_bit_set, Arithmetic, Comparison, Shifted,
};
use crate::cpu::bus::{
    high_byte, low_byte, make_word, offset, read_word, split_word, word, word_at, wrapped, Bus,
};
use crate::cpu::opcode::{
    family_of, pays_for_page_crossing, AddressingMode, Condition, Family, OpcodeEntry, Operation,
    Register,
};
use crate::cpu::registers::{status_byte, with_result_flags, with_status, RegisterFile};
use vstd::prelude::*;

verus! {

/// Where the non-maskable interrupt finds the address of its handler.
pub const NMI_VECTOR: u16 = 0xFFFA;

/// Where a reset finds the address at which execution starts.
pub const RESET_VECTOR: u16 = 0xFFFC;

/// Where an interrupt request and the break instruction find the address of
/// their handler.
pub const IRQ_VECTOR: u16 = 0xFFFE;

/// The registers and the memory: all that an instruction can change.
pub struct Core {
    pub registers: RegisterFile,
    pub memory: Seq<u8>,
}

/// What the processor is to do after an instruction.
#[derive(Clone, Copy, Debug, PartialEq, Eq, Structural)]
pub enum Signal {
    /// Go on with the next instruction.
    Continue,
    /// Halt until an interrupt line is asserted.
    Wait,
    /// Halt until the next reset.
    Stop,
}

/// What an instruction took and asked for.
#[derive(Clone, Copy, Debug, PartialEq, Eq, Structural)]
pub struct Outcome {
    /// The cycles that the instruction took.
    pub cycles: u32,
    /// What the processor is to do next.
    pub signal: Signal,
}

/// A core from its two parts.
pub open spec fn core_of(registers: RegisterFile, memory: Seq<u8>) -> Core {
    Core { registers, memory }
}

/// The core with other registers.
pub open spec fn with_registers(c: Core, registers: RegisterFile) -> Core {
    Core { registers, memory: c.memory }
}

/// The address in page 1 that a stack pointer stands for.
pub open spec fn stack_address(sp: u8) -> u16 {
    (0x0100 + sp) as u16
}

/// The core after a push: the byte is stored where the stack pointer stands,
/// then the stack pointer moves down by one, from 0 to 255.
pub open spec fn pushed(c: Core, value: u8) -> Core {
    Core {
        registers: RegisterFile { sp: decremented(c.registers.sp), ..c.registers },
        memory: c.memory.update(stack_address(c.registers.sp) as int, value),
    }
}

/// The byte that a pull yields: the one above the stack pointer.
pub open spec fn top_of_stack(c: Core) -> u8 {
    c.memory[stack_address(incremented(c.registers.sp)) as int]
}

/// The core after a pull: the stack pointer moves up by one, from 255 to 0.
pub open spec fn pulled(c: Core) -> Core {
    with_registers(c, RegisterFile { sp: incremented(c.registers.sp), ..c.registers })
}

/// The byte that an instruction works on.
pub open spec fn operand_value(c: Core, operand: Operand) -> u8 {
    if operand.in_accumulator {
        c.registers.a
    } else {
        c.memory[operand.address as int]
    }
}

/// The core after a byte was written to the operand.
pub open spec fn stored(c: Core, operand: Operand, value: u8) -> Core {
    if operand.in_accumulator {
        with_registers(c, RegisterFile { a: value, ..c.registers })
    } else {
        Core { registers: c.registers, memory: c.memory.update(operand.address as int, value) }
    }
}

/// The byte in a register.
pub open spec fn register_value(r: RegisterFile, register: Register) -> u8 {
    match register {
        Register::A => r.a,
        Register::X => r.x,
        Register::Y => r.y,
    }
}

/// The registers after a byte came into a register: Zero and Negative follow it.
pub open spec fn with_loaded(r: RegisterFile, register: Register, value: u8) -> RegisterFile {
    with_result_flags(
        match register {
            Register::A => RegisterFile { a: value, ..r },
            Register::X => RegisterFile { x: value, ..r },
            Register::Y => RegisterFile { y: value, ..r },
        },
        value,
    )
}

/// The sum that the accumulator takes, in the mode that the Decimal flag selects.
pub open spec fn sum_for(r: RegisterFile, value: u8) -> Arithmetic {
    if r.decimal {
        decimal_sum(r.a, value, r.carry)
    } else {
        binary_sum(r.a, value, r.carry)
    }
}

/// The difference that the accumulator takes, in the mode that the Decimal
/// flag selects.
pub open spec fn difference_for(r: RegisterFile, value: u8) -> Arithmetic {
    if r.decimal {
        decimal_difference(r.a, value, r.carry)
    } else {
        binary_difference(r.a, value, r.carry)
    }
}

/// The registers after an addition or a subtraction: the accumulator holds
/// the result, Carry and Overflow are those of the operation, Zero and
/// Negative follow the result.
pub open spec fn accumulated(r: RegisterFile, result: Arithmetic) -> RegisterFile {
    with_result_flags(
        RegisterFile { a: result.value, carry: result.carry, overflow: result.overflow, ..r },
        result.value,
    )
}

/// The registers after a comparison: only Carry, Zero and Negative change.
pub open spec fn compared(r: RegisterFile, flags: Comparison) -> RegisterFile {
    RegisterFile { carry: flags.carry, zero: flags.zero, negative: flags.negative, ..r }
}

/// The registers after a bit test of `value`. Zero tells whether the
/// accumulator and the operand share no bit. But for an immediate operand,
/// Negative and Overflow take bits 7 and 6 of the operand.
pub open spec fn bit_tested(r: RegisterFile, mode: AddressingMode, value: u8) -> RegisterFile {
    if mode == AddressingMode::Immediate {
        RegisterFile { zero: r.a & value == 0, ..r }
    } else {
        RegisterFile {
            zero: r.a & value == 0,
            negative: value >= 128,
            overflow: bit_set(value, 6),
            ..r
        }
    }
}

/// The core after the operand was replaced by `value`, with Zero and
/// Negative following it.
pub open spec fn modified(c: Core, operand: Operand, value: u8) -> Core {
    let written = stored(c, operand, value);
    with_registers(written, with_result_flags(written.registers, value))
}

/// The core after a shift or a rotation of the operand: Carry takes the bit
/// that left.
pub open spec fn shift_stored(c: Core, operand: Operand, result: Shifted) -> Core {
    let written = modified(c, operand, result.value);
    with_registers(written, RegisterFile { carry: result.carry, ..written.registers })
}

/// The core after a jump.
pub open spec fn jumped(c: Core, target: u16) -> Core {
    with_registers(c, RegisterFile { pc: target, ..c.registers })
}

/// Whether the flag that a branch tests is set.
pub open spec fn condition_holds(r: RegisterFile, condition: Condition) -> bool {
    match condition {
        Condition::Negative => r.negative,
        Condition::Overflow => r.overflow,
        Condition::Carry => r.carry,
        Condition::Zero => r.zero,
    }
}

/// The core after a call: the address of the last byte of the call
/// instruction is pushed, high byte first, and execution goes to `target`.
pub open spec fn called(c: Core, target: u16) -> Core {
    let last = wrapped(c.registers.pc - 1);
    jumped(pushed(pushed(c, high_byte(last)), low_byte(last)), target)
}

/// The core after a return from a subroutine: the address pulled, low byte
/// first, is that of the last byte of the call; execution goes on after it.
pub open spec fn returned(c: Core) -> Core {
    let low = top_of_stack(c);
    let high = top_of_stack(pulled(c));
    jumped(pulled(pulled(c)), wrapped(word(low, high) + 1))
}

/// The core after a return from an interrupt: the status is pulled, then the
/// program counter, low byte first.
pub open spec fn returned_from_interrupt(c: Core) -> Core {
    let status = top_of_stack(c);
    let low = top_of_stack(pulled(c));
    let high = top_of_stack(pulled(pulled(c)));
    let unwound = pulled(pulled(pulled(c)));
    with_registers(
        unwound,
        RegisterFile { pc: word(low, high), ..with_status(unwound.registers, status) },
    )
}

/// The status byte as it is pushed: the flags as they are, but for
/// BreakAtPush, which tells who pushes.
pub open spec fn pushed_status(r: RegisterFile, from_break: bool) -> u8 {
    status_byte(RegisterFile { break_at_push: from_break, ..r })
}

/// The core after an interrupt sequence: the program counter is pushed, high
/// byte first, then the status; InterruptDisable is set and execution goes
/// to the address held at `vector`.
pub open spec fn interrupted(c: Core, vector: u16, from_break: bool) -> Core {
    let r = c.registers;
    let saved = pushed(
        pushed(pushed(c, high_byte(r.pc)), low_byte(r.pc)),
        pushed_status(r, from_break),
    );
    with_registers(
        saved,
        RegisterFile {
            interrupt_disable: true,
            pc: word_at(saved.memory, vector),
            ..saved.registers
        },
    )
}

/// The core after an instruction. On entry the program counter stands on the
/// next instruction.
pub open spec fn effect(entry: OpcodeEntry, operand: Operand, c: Core) -> Core {
    let r = c.registers;
    let value = operand_value(c, operand);
    match entry.operation {
        Operation::Load(register) => with_registers(c, with_loaded(r, register, value)),
        Operation::Store(register) => stored(c, operand, register_value(r, register)),
        Operation::StoreZero => stored(c, operand, 0),
        Operation::TransferAToX => with_registers(c, with_loaded(r, Register::X, r.a)),
        Operation::TransferAToY => with_registers(c, with_loaded(r, Register::Y, r.a)),
        Operation::TransferXToA => with_registers(c, with_loaded(r, Register::A, r.x)),
        Operation::TransferYToA => with_registers(c, with_loaded(r, Register::A, r.y)),
        Operation::TransferSToX => with_registers(c, with_loaded(r, Register::X, r.sp)),
        Operation::TransferXToS => with_registers(c, RegisterFile { sp: r.x, ..r }),
        Operation::Add => with_registers(c, accumulated(r, sum_for(r, value))),
        Operation::Subtract => with_registers(c, accumulated(r, difference_for(r, value))),
        Operation::Compare(register) => with_registers(
            c,
            compared(r, comparison(register_value(r, register), value)),
        ),
        Operation::And => with_registers(c, with_loaded(r, Register::A, r.a & value)),
        Operation::Or => with_registers(c, with_loaded(r, Register::A, r.a | value)),
        Operation::Xor => with_registers(c, with_loaded(r, Register::A, r.a ^ value)),
        Operation::BitTest => with_registers(c, bit_tested(r, entry.mode, value)),
        Operation::TestAndSet => stored(
            with_registers(c, RegisterFile { zero: r.a & value == 0, ..r }),
            operand,
            value | r.a,
        ),
        Operation::TestAndReset => stored(
            with_registers(c, RegisterFile { zero: r.a & value == 0, ..r }),
            operand,
            value & !r.a,
        ),
        Operation::ShiftLeft => shift_stored(c, operand, shifted_left(value)),
        Operation::ShiftRight => shift_stored(c, operand, shifted_right(value)),
        Operation::RotateLeft => shift_stored(c, operand, rotated_left(value, r.carry)),
        Operation::RotateRight => shift_stored(c, operand, rotated_right(value, r.carry)),
        Operation::Increment => modified(c, operand, incremented(value)),
        Operation::Decrement => modified(c, operand, decremented(value)),
        Operation::IncrementRegister(register) => with_registers(
            c,
            with_loaded(r, register, incremented(register_value(r, register))),
        ),
        Operation::DecrementRegister(register) => with_registers(
            c,
            with_loaded(r, register, decremented(register_value(r, register))),
        ),
        Operation::Jump => jumped(c, operand.address),
        Operation::Call => called(c, operand.address),
        Operation::Return => returned(c),
        Operation::ReturnFromInterrupt => returned_from_interrupt(c),
        Operation::Branch(condition, wanted) => if condition_holds(r, condition) == wanted {
            jumped(c, operand.target)
        } else {
            c
        },
        Operation::BranchAlways => jumped(c, operand.target),
        Operation::BranchOnBit(bit, wanted) => if bit_set(value, bit) == wanted {
            jumped(c, operand.target)
        } else {
            c
        },
        Operation::ResetMemoryBit(bit) => stored(c, operand, with_bit_clear(value, bit)),
        Operation::SetMemoryBit(bit) => stored(c, operand, with_bit_set(value, bit)),
        Operation::Push(register) => pushed(c, register_value(r, register)),
        Operation::Pull(register) => with_registers(
            pulled(c),
            with_loaded(pulled(c).registers, register, top_of_stack(c)),
        ),
        Operation::PushStatus => pushed(c, pushed_status(r, true)),
        Operation::PullStatus => with_registers(
            pulled(c),
            with_status(pulled(c).registers, top_of_stack(c)),
        ),
        Operation::SetCarry(set) => with_registers(c, RegisterFile { carry: set, ..r }),
        Operation::SetInterruptDisable(set) => with_registers(
            c,
            RegisterFile { interrupt_disable: set, ..r },
        ),
        Operation::SetDecimal(set) => with_registers(c, RegisterFile { decimal: set, ..r }),
        Operation::ClearOverflow => with_registers(c, RegisterFile { overflow: false, ..r }),
        Operation::Break => interrupted(c, IRQ_VECTOR, true),
        Operation::Wait | Operation::Stop | Operation::Nop => c,
    }
}

/// Whether the instruction is a branch that is taken.
pub open spec fn branch_taken(entry: OpcodeEntry, operand: Operand, c: Core) -> bool {
    match entry.operation {
        Operation::Branch(condition, wanted) => condition_holds(c.registers, condition) == wanted,
        Operation::BranchOnBit(bit, wanted) => bit_set(operand_value(c, operand), bit) == wanted,
        Operation::BranchAlways => true,
        _ => false,
    }
}

/// The cycles that an instruction takes: the base count of its entry, one
/// more for a conditional branch that is taken, and one more where a page
/// is crossed by a taken branch or by an operation that pays for it.
pub open spec fn cycles_taken(entry: OpcodeEntry, operand: Operand, c: Core) -> u32 {
    let crossing: int = if operand.page_crossed {
        1
    } else {
        0
    };
    (match entry.operation {
        Operation::Branch(_, _) | Operation::BranchOnBit(_, _) => if branch_taken(
            entry,
            operand,
            c,
        ) {
            entry.cycles + 1 + crossing
        } else {
            entry.cycles as int
        },
        Operation::BranchAlways => entry.cycles + crossing,
        operation => if pays_for_page_crossing(operation) {
            entry.cycles + crossing
        } else {
            entry.cycles as int
        },
    }) as u32
}

/// What the processor is to do after an operation.
pub open spec fn signal_of(operation: Operation) -> Signal {
    match operation {
        Operation::Wait => Signal::Wait,
        Operation::Stop => Signal::Stop,
        _ => Signal::Continue,
    }
}

/// Pushes a byte onto the stack. The stack pointer wraps from 0 to 255
/// without notice.
pub fn push<B: Bus>(registers: &mut RegisterFile, bus: &mut B, value: u8)
    ensures
        core_of(*final(registers), final(bus).contents()) == pushed(
            core_of(*old(registers), old(bus).contents()),
            value,
        ),
{
    bus.write(0x0100 + registers.sp as u16, value);
    registers.sp = decrement(registers.sp);
}

/// Pulls a byte from the stack. The stack pointer wraps from 255 to 0
/// without notice.
pub fn pull<B: Bus>(registers: &mut RegisterFile, bus: &B) -> (value: u8)
    ensures
        value == top_of_stack(core_of(*old(registers), bus.contents())),
        core_of(*final(registers), bus.contents()) == pulled(
            core_of(*old(registers), bus.contents()),
        ),
{
    registers.sp = increment(registers.sp);
    bus.read(0x0100 + registers.sp as u16)
}

/// Reads the operand.
fn read_operand<B: Bus>(registers: &RegisterFile, bus: &B, operand: Operand) -> (value: u8)
    ensures
        value == operand_value(core_of(*registers, bus.contents()), operand),
{
    if operand.in_accumulator {
        registers.a
    } else {
        bus.read(operand.address)
    }
}

/// Writes the operand.
fn write_operand<B: Bus>(registers: &mut RegisterFile, bus: &mut B, operand: Operand, value: u8)
    ensures
        core_of(*final(registers), final(bus).contents()) == stored(
            core_of(*old(registers), old(bus).contents()),
            operand,
            value,
        ),
{
    if operand.in_accumulator {
        registers.a = value;
    } else {
        bus.write(operand.address, value);
    }
}

/// Writes the operand and sets Zero and Negative from it.
fn modify_operand<B: Bus>(registers: &mut RegisterFile, bus: &mut B, operand: Operand, value: u8)
    ensures
        core_of(*final(registers), final(bus).contents()) == modified(
            core_of(*old(registers), old(bus).contents()),
            operand,
            value,
        ),
{
    write_operand(registers, bus, operand, value);
    registers.set_result_flags(value);
}

/// Writes a shifted operand and sets Carry, Zero and Negative.
fn store_shifted<B: Bus>(
    registers: &mut RegisterFile,
    bus: &mut B,
    operand: Operand,
    result: Shifted,
)
    ensures
        core_of(*final(registers), final(bus).contents()) == shift_stored(
            core_of(*old(registers), old(bus).contents()),
            operand,
            result,
        ),
{
    modify_operand(registers, bus, operand, result.value);
    registers.carry = result.carry;
}

/// Reads a register.
fn register(registers: &RegisterFile, which: Register) -> (value: u8)
    ensures
        value == register_value(*registers, which),
{
    match which {
        Register::A => registers.a,
        Register::X => registers.x,
        Register::Y => registers.y,
    }
}

/// Brings a byte into a register and sets Zero and Negative from it.
fn load_register(registers: &mut RegisterFile, register: Register, value: u8)
    ensures
        *final(registers) == with_loaded(*old(registers), register, value),
{
    match register {
        Register::A => registers.a = value,
        Register::X => registers.x = value,
        Register::Y => registers.y = value,
    }
    registers.set_result_flags(value);
}

/// Adds to the accumulator, or subtracts from it, in the mode that the
/// Decimal flag selects.
fn accumulate(registers: &mut RegisterFile, value: u8, subtract: bool)
    ensures
        *final(registers) == accumulated(
            *old(registers),
            if subtract {
                difference_for(*old(registers), value)
            } else {
                sum_for(*old(registers), value)
            },
        ),
{
    let result = if subtract {
        if registers.decimal {
            subtract_decimal(registers.a, value, registers.carry)
        } else {
            subtract_binary(registers.a, value, registers.carry)
        }
    } else {
        if registers.decimal {
            add_decimal(registers.a, value, registers.carry)
        } else {
            add_binary(registers.a, value, registers.carry)
        }
    };
    registers.a = result.value;
    registers.carry = result.carry;
    registers.overflow = result.overflow;
    registers.set_result_flags(result.value);
}

/// Tests the operand against the accumulator.
fn bit_test(registers: &mut RegisterFile, mode: AddressingMode, value: u8)
    ensures
        *final(registers) == bit_tested(*old(registers), mode, value),
{
    registers.zero = registers.a & value == 0;
    match mode {
        AddressingMode::Immediate => {},
        _ => {
            registers.negative = value >= 128;
            registers.overflow = test_bit(value, 6);
        },
    }
}

/// Reads the flag that a branch tests.
fn condition(registers: &RegisterFile, tested: Condition) -> (holds: bool)
    ensures
        holds == condition_holds(*registers, tested),
{
    match tested {
        Condition::Negative => registers.negative,
        Condition::Overflow => registers.overflow,
        Condition::Carry => registers.carry,
        Condition::Zero => registers.zero,
    }
}

/// Calls a subroutine.
fn call<B: Bus>(registers: &mut RegisterFile, bus: &mut B, target: u16)
    ensures
        core_of(*final(registers), final(bus).contents()) == called(
            core_of(*old(registers), old(bus).contents()),
            target,
        ),
{
    let last = registers.pc.wrapping_sub(1);
    let (low, high) = split_word(last);
    push(registers, bus, high);
    push(registers, bus, low);
    registers.pc = target;
}

/// Returns from a subroutine.
fn return_from_subroutine<B: Bus>(registers: &mut RegisterFile, bus: &B)
    ensures
        core_of(*final(registers), bus.contents()) == returned(
            core_of(*old(registers), bus.contents()),
        ),
{
    let low = pull(registers, bus);
    let high = pull(registers, bus);
    registers.pc = offset(make_word(low, high), 1);
}

/// Returns from an interrupt.
fn return_from_interrupt<B: Bus>(registers: &mut RegisterFile, bus: &B)
    ensures
        core_of(*final(registers), bus.contents()) == returned_from_interrupt(
            core_of(*old(registers), bus.contents()),
        ),
{
    let status = pull(registers, bus);
    let low = pull(registers, bus);
    let high = pull(registers, bus);
    registers.unpack_status(status);
    registers.pc = make_word(low, high);
}

/// Runs the interrupt sequence: pushes the program counter and the status,
/// sets InterruptDisable and goes to the address held at `vector`.
/// `from_break` is the BreakAtPush bit of the pushed status: set for the
/// break instruction, clear for a hardware interrupt.
pub fn interrupt<B: Bus>(registers: &mut RegisterFile, bus: &mut B, vector: u16, from_break: bool)
    ensures
        core_of(*final(registers), final(bus).contents()) == interrupted(
            core_of(*old(registers), old(bus).contents()),
            vector,
            from_break,
        ),
{
    let (low, high) = split_word(registers.pc);
    let mut flags = *registers;
    flags.break_at_push = from_break;
    let status = flags.pack_status();
    push(registers, bus, high);
    push(registers, bus, low);
    push(registers, bus, status);
    registers.interrupt_disable = true;
    registers.pc = read_word(bus, vector);
}

/// Counts the cycles of an instruction before it is executed.
fn count_cycles<B: Bus>(
    entry: OpcodeEntry,
    operand: Operand,
    registers: &RegisterFile,
    bus: &B,
) -> (cycles: u32)
    ensures
        cycles == cycles_taken(entry, operand, core_of(*registers, bus.contents())),
{
    let base: u32 = entry.cycles as u32;
    let crossing: u32 = if operand.page_crossed {
        1
    } else {
        0
    };
    match entry.operation {
        Operation::Branch(tested, wanted) => {
            if condition(registers, tested) == wanted {
                base + 1 + crossing
            } else {
                base
            }
        },
        Operation::BranchOnBit(bit, wanted) => {
            if test_bit(read_operand(registers, bus, operand), bit) == wanted {
                base + 1 + crossing
            } else {
                base
            }
        },
        Operation::BranchAlways => base + crossing,
        operation => {
            if operation.pays_for_page_crossing() {
                base + crossing
            } else {
                base
            }
        },
    }
}

/// Executes a load, a store or a register transfer.
fn execute_transfer<B: Bus>(
    entry: OpcodeEntry,
    operand: Operand,
    registers: &mut RegisterFile,
    bus: &mut B,
)
    requires
        family_of(entry.operation) == Family::Transfer,
    ensures
        core_of(*final(registers), final(bus).contents()) == effect(
            entry,
            operand,
            core_of(*old(registers), old(bus).contents()),
        ),
{
    match entry.operation {
        Operation::Load(target) => {
            let value = read_operand(registers, bus, operand);
            load_register(registers, target, value);
        },
        Operation::Store(source) => {
            let value = register(registers, source);
            write_operand(registers, bus, operand, value);
        },
        Operation::StoreZero => {
            write_operand(registers, bus, operand, 0);
        },
        Operation::TransferAToX => {
            let value = registers.a;
            load_register(registers, Register::X, value);
        },
        Operation::TransferAToY => {
            let value = registers.a;
            load_register(registers, Register::Y, value);
        },
        Operation::TransferXToA => {
            let value = registers.x;
            load_register(registers, Register::A, value);
        },
        Operation::TransferYToA => {
            let value = registers.y;
            load_register(registers, Register::A, value);
        },
        Operation::TransferSToX => {
            let value = registers.sp;
            load_register(registers, Register::X, value);
        },
        _ => {
            registers.sp = registers.x;
        },
    }
}

/// Executes an addition, a subtraction or a comparison.
fn execute_arithmetic<B: Bus>(
    entry: OpcodeEntry,
    operand: Operand,
    registers: &mut RegisterFile,
    bus: &B,
)
    requires
        family_of(entry.operation) == Family::Arithmetic || family_of(entry.operation)
            == Family::Compare,
    ensures
        core_of(*final(registers), bus.contents()) == effect(
            entry,
            operand,
            core_of(*old(registers), bus.contents()),
        ),
{
    let value = read_operand(registers, bus, operand);
    match entry.operation {
        Operation::Add => {
            accumulate(registers, value, false);
        },
        Operation::Subtract => {
            accumulate(registers, value, true);
        },
        Operation::Compare(source) => {
            let flags = compare(register(registers, source), value);
            registers.carry = flags.carry;
            registers.zero = flags.zero;
            registers.negative = flags.negative;
        },
        _ => {},
    }
}

/// Executes a bitwise operation or a bit test.
fn execute_logic<B: Bus>(
    entry: OpcodeEntry,
    operand: Operand,
    registers: &mut RegisterFile,
    bus: &mut B,
)
    requires
        family_of(entry.operation) == Family::Logic,
    ensures
        core_of(*final(registers), final(bus).contents()) == effect(
            entry,
            operand,
            core_of(*old(registers), old(bus).contents()),
        ),
{
    let value = read_operand(registers, bus, operand);
    let mask = registers.a;
    match entry.operation {
        Operation::And => {
            load_register(registers, Register::A, mask & value);
        },
        Operation::Or => {
            load_register(registers, Register::A, mask | value);
        },
        Operation::Xor => {
            load_register(registers, Register::A, mask ^ value);
        },
        Operation::BitTest => {
            bit_test(registers, entry.mode, value);
        },
        Operation::TestAndSet => {
            registers.zero = mask & value == 0;
            write_operand(registers, bus, operand, value | mask);
        },
        _ => {
            registers.zero = mask & value == 0;
            write_operand(registers, bus, operand, value & !mask);
        },
    }
}

/// Executes a shift, a rotation, an increment or a decrement.
fn execute_modify<B: Bus>(
    entry: OpcodeEntry,
    operand: Operand,
    registers: &mut RegisterFile,
    bus: &mut B,
)
    requires
        family_of(entry.operation) == Family::Shift || family_of(entry.operation)
            == Family::IncrementDecrement,
    ensures
        core_of(*final(registers), final(bus).contents()) == effect(
            entry,
            operand,
            core_of(*old(registers), old(bus).contents()),
        ),
{
    match entry.operation {
        Operation::IncrementRegister(target) => {
            let value = increment(register(registers, target));
            load_register(registers, target, value);
        },
        Operation::DecrementRegister(target) => {
            let value = decrement(register(registers, target));
            load_register(registers, target, value);
        },
        operation => {
            let value = read_operand(registers, bus, operand);
            let carry = registers.carry;
            match operation {
                Operation::ShiftLeft => store_shifted(registers, bus, operand, shift_left(value)),
                Operation::ShiftRight => store_shifted(
                    registers,
                    bus,
                    operand,
                    shift_right(value),
                ),
                Operation::RotateLeft => store_shifted(
                    registers,
                    bus,
                    operand,
                    rotate_left(value, carry),
                ),
                Operation::RotateRight => store_shifted(
                    registers,
                    bus,
                    operand,
                    rotate_right(value, carry),
                ),
                Operation::Increment => modify_operand(registers, bus, operand, increment(value)),
                _ => modify_operand(registers, bus, operand, decrement(value)),
            }
        },
    }
}

/// Executes a jump, a call, a return or a branch.
fn execute_flow<B: Bus>(
    entry: OpcodeEntry,
    operand: Operand,
    registers: &mut RegisterFile,
    bus: &mut B,
)
    requires
        family_of(entry.operation) == Family::Jump || family_of(entry.operation) == Family::Branch,
    ensures
        core_of(*final(registers), final(bus).contents()) == effect(
            entry,
            operand,
            core_of(*old(registers), old(bus).contents()),
        ),
{
    match entry.operation {
        Operation::Jump => {
            registers.pc = operand.address;
        },
        Operation::Call => {
            call(registers, bus, operand.address);
        },
        Operation::Return => {
            return_from_subroutine(registers, bus);
        },
        Operation::Branch(tested, wanted) => {
            if condition(registers, tested) == wanted {
                registers.pc = operand.target;
            }
        },
        Operation::BranchOnBit(bit, wanted) => {
            if test_bit(read_operand(registers, bus, operand), bit) == wanted {
                registers.pc = operand.target;
            }
        },
        _ => {
            registers.pc = operand.target;
        },
    }
}

/// Executes a push, a pull, or the setting or clearing of a flag or of a bit
/// of memory.
fn execute_stack_and_bits<B: Bus>(
    entry: OpcodeEntry,
    operand: Operand,
    registers: &mut RegisterFile,
    bus: &mut B,
)
    requires
        family_of(entry.operation) == Family::Stack || family_of(entry.operation) == Family::Flag
            || family_of(entry.operation) == Family::MemoryBit,
    ensures
        core_of(*final(registers), final(bus).contents()) == effect(
            entry,
            operand,
            core_of(*old(registers), old(bus).contents()),
        ),
{
    match entry.operation {
        Operation::Push(source) => {
            let value = register(registers, source);
            push(registers, bus, value);
        },
        Operation::Pull(target) => {
            let value = pull(registers, bus);
            load_register(registers, target, value);
        },
        Operation::PushStatus => {
            let mut flags = *registers;
            flags.break_at_push = true;
            let status = flags.pack_status();
            push(registers, bus, status);
        },
        Operation::PullStatus => {
            let status = pull(registers, bus);
            registers.unpack_status(status);
        },
        Operation::SetCarry(set) => {
            registers.carry = set;
        },
        Operation::SetInterruptDisable(set) => {
            registers.interrupt_disable = set;
        },
        Operation::SetDecimal(set) => {
            registers.decimal = set;
        },
        Operation::ClearOverflow => {
            registers.overflow = false;
        },
        Operation::ResetMemoryBit(bit) => {
            let value = read_operand(registers, bus, operand);
            write_operand(registers, bus, operand, clear_bit(value, bit));
        },
        Operation::SetMemoryBit(bit) => {
            let value = read_operand(registers, bus, operand);
            write_operand(registers, bus, operand, set_bit(value, bit));
        },
        _ => {},
    }
}

/// Executes a break, a return from an interrupt, a wait or a stop.
fn execute_interrupt<B: Bus>(
    entry: OpcodeEntry,
    operand: Operand,
    registers: &mut RegisterFile,
    bus: &mut B,
) -> (signal: Signal)
    requires
        family_of(entry.operation) == Family::Interrupt,
    ensures
        core_of(*final(registers), final(bus).contents()) == effect(
            entry,
            operand,
            core_of(*old(registers), old(bus).contents()),
        ),
        signal == signal_of(entry.operation),
{
    match entry.operation {
        Operation::Break => {
            interrupt(registers, bus, IRQ_VECTOR, true);
            Signal::Continue
        },
        Operation::ReturnFromInterrupt => {
            return_from_interrupt(registers, bus);
            Signal::Continue
        },
        Operation::Wait => Signal::Wait,
        _ => Signal::Stop,
    }
}

/// Executes one instruction whose operand is resolved.
///
/// On entry the program counter stands on the next instruction. The
/// registers and memory change as the operation says; the outcome tells the
/// cycles taken and whether the processor is to wait or to stop.
pub fn execute<B: Bus>(
    entry: OpcodeEntry,
    operand: Operand,
    registers: &mut RegisterFile,
    bus: &mut B,
) -> (outcome: Outcome)
    ensures
        core_of(*final(registers), final(bus).contents()) == effect(
            entry,
            operand,
            core_of(*old(registers), old(bus).contents()),
        ),
        outcome.cycles == cycles_taken(
            entry,
            operand,
            core_of(*old(registers), old(bus).contents()),
        ),
        outcome.signal == signal_of(entry.operation),
{
    let cycles = count_cycles(entry, operand, registers, bus);
    let mut signal = Signal::Continue;
    match entry.operation.family() {
        Family::Transfer => execute_transfer(entry, operand, registers, bus),
        Family::Arithmetic | Family::Compare => execute_arithmetic(entry, operand, registers, bus),
        Family::Logic => execute_logic(entry, operand, registers, bus),
        Family::Shift | Family::IncrementDecrement => execute_modify(
            entry,
            operand,
            registers,
            bus,
        ),
        Family::Jump | Family::Branch => execute_flow(entry, operand, registers, bus),
        Family::Stack | Family::Flag | Family::MemoryBit => execute_stack_and_bits(
            entry,
            operand,
            registers,
            bus,
        ),
        Family::Interrupt => {
            signal = execute_interrupt(entry, operand, registers, bus);
        },
        Family::Nop => {},
    }
    Outcome { cycles, signal }
}

} // verus!
