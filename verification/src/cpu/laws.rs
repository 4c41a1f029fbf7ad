//! What holds of every machine: the laws of reset, stack, branches and
//! interrupts, each proved from the definitions that the contracts use.

use crate::cpu::addressing::{displaced, pages_differ};
use crate::cpu::alu::bit_set;
use crate::cpu::bus::{
    high_byte, lemma_word_joins_bytes, loaded, low_byte, word, wrapped, ADDRESS_SPACE,
};
use crate::cpu::execute::{
    branch_taken, called, effect, interrupted, pulled, pushed, pushed_status, returned,
    returned_from_interrupt, top_of_stack, Core, IRQ_VECTOR,
};
use crate::cpu::interrupt::{
    accepted, action_for, vector_of, with_nmi_line, Action, Interrupt, InterruptController,
    RunState,
};
use crate::cpu::opcode::{entry_for, AddressingMode, Operation};
use crate::cpu::registers::{lemma_unpack_of_pack, status_byte, RegisterFile};
use crate::cpu::{
    core_in, current_entry, current_operand, decoded, powered_on, register_image, registers_from,
    restarted, restored, serviced, snapshot_of, step_action, step_cycles, stepped, Machine,
    INTERRUPT_CYCLES, RESET_CYCLES, SNAPSHOT_LENGTH,
};
use vstd::prelude::*;

verus! {

/// A reset, from any state, starts execution at the address whose low byte
/// is at 0xFFFC and whose high byte is at 0xFFFD, sets InterruptDisable and
/// clears Decimal. It leaves memory, the other registers and the other flags
/// as they were, and always takes seven cycles.
pub proof fn lemma_reset(m: Machine)
    ensures
        restarted(m, None).registers == (RegisterFile {
            pc: word(m.memory[0xFFFC], m.memory[0xFFFD]),
            interrupt_disable: true,
            decimal: false,
            ..m.registers
        }),
        restarted(m, None).memory == m.memory,
        restarted(m, None).controller.state == RunState::Running,
        step_action(m) == Action::Service(Interrupt::Reset) ==> stepped(m) == restarted(m, None)
            && step_cycles(m) == RESET_CYCLES,
        RESET_CYCLES == 7,
{
}

/// A pull after a push yields the byte that was pushed and leaves every
/// register, the stack pointer among them, as it was before the push.
pub proof fn lemma_push_then_pull(c: Core, value: u8)
    requires
        c.memory.len() == ADDRESS_SPACE,
    ensures
        top_of_stack(pushed(c, value)) == value,
        pulled(pushed(c, value)).registers == c.registers,
{
}

/// Three pushes move the stack pointer down by exactly three, modulo 256,
/// and change nothing else in the registers.
pub proof fn lemma_three_pushes(c: Core, first: u8, second: u8, third: u8)
    ensures
        pushed(pushed(pushed(c, first), second), third).registers == (RegisterFile {
            sp: ((c.registers.sp - 3) % 256) as u8,
            ..c.registers
        }),
{
}

/// A conditional branch that is not taken costs two cycles and goes on with
/// the next instruction. Taken, it costs three cycles when its target lies in
/// the page of the next instruction and four when it lies in another.
pub proof fn lemma_branch_cycles(m: Machine)
    requires
        step_action(m) == Action::Execute,
        current_entry(m).operation is Branch,
    ensures
        current_entry(m).mode == AddressingMode::Relative,
        current_operand(m).target == displaced(
            wrapped(m.registers.pc + 2),
            m.memory[wrapped(m.registers.pc + 1) as int],
        ),
        !branch_taken(current_entry(m), current_operand(m), decoded(m)) ==> {
            &&& step_cycles(m) == 2
            &&& stepped(m).registers == (RegisterFile {
                pc: wrapped(m.registers.pc + 2),
                ..m.registers
            })
        },
        branch_taken(current_entry(m), current_operand(m), decoded(m)) ==> {
            &&& step_cycles(m) == (if pages_differ(
                wrapped(m.registers.pc + 2),
                current_operand(m).target,
            ) {
                4u32
            } else {
                3u32
            })
            &&& stepped(m).registers == (RegisterFile {
                pc: current_operand(m).target,
                ..m.registers
            })
        },
        stepped(m).memory == m.memory,
{
    let opcode = m.memory[m.registers.pc as int];
    assert(opcode % 16 == 0 && (opcode / 16) % 2 == 1);
}

/// The break instruction pushes the status with BreakAtPush set; the
/// sequence of a hardware interrupt pushes it with BreakAtPush clear. Either
/// way the byte on top of the stack afterwards is that status, and every
/// other flag in it is the flag as it was.
pub proof fn lemma_pushed_break_flag(c: Core, vector: u16, from_break: bool)
    requires
        c.memory.len() == ADDRESS_SPACE,
    ensures
        top_of_stack(interrupted(c, vector, from_break)) == pushed_status(c.registers, from_break),
        bit_set(pushed_status(c.registers, from_break), 4) == from_break,
        pushed_status(c.registers, from_break) == status_byte(
            RegisterFile { break_at_push: from_break, ..c.registers },
        ),
{
}

/// The break instruction runs the interrupt sequence with BreakAtPush set,
/// through the vector of the interrupt request.
pub proof fn lemma_break_is_software_interrupt(opcode: u8, c: Core)
    requires
        entry_for(opcode).operation == Operation::Break,
    ensures
        opcode == 0x00,
        forall|operand| effect(entry_for(opcode), operand, c) == interrupted(c, IRQ_VECTOR, true),
{
}

/// A hardware interrupt that a step serves runs the interrupt sequence with
/// BreakAtPush clear and takes seven cycles.
pub proof fn lemma_hardware_interrupt(m: Machine, interrupt: Interrupt)
    requires
        step_action(m) == Action::Service(interrupt),
        interrupt != Interrupt::Reset,
    ensures
        stepped(m) == serviced(m, interrupt),
        core_in(stepped(m)) == interrupted(core_in(m), vector_of(interrupt), false),
        stepped(m).controller.state == RunState::Running,
        step_cycles(m) == INTERRUPT_CYCLES,
        INTERRUPT_CYCLES == 7,
{
}

/// A return from an interrupt undoes the interrupt sequence: the program
/// counter, the stack pointer and the registers are as they were before the
/// sequence, and the status is exactly the status that was pushed.
pub proof fn lemma_return_from_interrupt_restores(c: Core, vector: u16, from_break: bool)
    requires
        c.memory.len() == ADDRESS_SPACE,
    ensures
        returned_from_interrupt(interrupted(c, vector, from_break)).registers == (RegisterFile {
            break_at_push: from_break,
            ..c.registers
        }),
        status_byte(returned_from_interrupt(interrupted(c, vector, from_break)).registers)
            == pushed_status(c.registers, from_break),
        returned_from_interrupt(interrupted(c, vector, from_break)).registers.pc == c.registers.pc,
{
    let pc = c.registers.pc;
    let first = pushed(c, high_byte(pc));
    let second = pushed(first, low_byte(pc));
    let third = pushed(second, pushed_status(c.registers, from_break));
    let after = interrupted(c, vector, from_break);
    assert(after.memory == third.memory);
    assert(after.registers.sp == third.registers.sp);
    assert(top_of_stack(after) == pushed_status(c.registers, from_break));
    assert(top_of_stack(pulled(after)) == low_byte(pc));
    assert(top_of_stack(pulled(pulled(after))) == high_byte(pc));
    lemma_unpack_of_pack(
        RegisterFile { break_at_push: from_break, ..c.registers },
    );
}

/// A return from a subroutine undoes the call: execution goes on with the
/// instruction after the call, and the stack pointer, the registers and the
/// flags are as they were at the call.
pub proof fn lemma_return_resumes_after_call(c: Core, target: u16)
    requires
        c.memory.len() == ADDRESS_SPACE,
    ensures
        called(c, target).registers == (RegisterFile {
            pc: target,
            sp: ((c.registers.sp - 2) % 256) as u8,
            ..c.registers
        }),
        returned(called(c, target)).registers == c.registers,
{
    let last = wrapped(c.registers.pc - 1);
    let first = pushed(c, high_byte(last));
    let second = pushed(first, low_byte(last));
    let after = called(c, target);
    assert(after.memory == second.memory);
    assert(top_of_stack(after) == low_byte(last));
    assert(top_of_stack(pulled(after)) == high_byte(last));
}

/// While the ready line is released a step changes nothing and takes no
/// cycle; and whatever a step does, it does not end inside a sequence.
pub proof fn lemma_step_is_whole(m: Machine)
    ensures
        !m.ready ==> stepped(m) == m && step_cycles(m) == 0,
        m.controller.state != RunState::InSequence ==> stepped(m).controller.state
            != RunState::InSequence,
{
}

/// A saved machine is 65543 bytes long, and restoring it gives back the
/// memory and the registers that were saved, with everything else as at
/// power-on.
pub proof fn lemma_restore_of_snapshot(m: Machine)
    requires
        m.memory.len() == ADDRESS_SPACE,
    ensures
        snapshot_of(m).len() == SNAPSHOT_LENGTH,
        restored(snapshot_of(m)) == (Machine { registers: m.registers, ..powered_on(m.memory) }),
{
    let bytes = snapshot_of(m);
    assert(bytes.subrange(0, ADDRESS_SPACE as int) =~= m.memory);
    assert(bytes.subrange(ADDRESS_SPACE as int, SNAPSHOT_LENGTH as int) =~= register_image(
        m.registers,
    ));
    lemma_word_joins_bytes(0, 0);
    lemma_unpack_of_pack(m.registers);
    assert(registers_from(register_image(m.registers)) == m.registers);
}

/// A loaded program stands in memory byte by byte from its base address
/// on; every other byte is as it was, and memory is as long as before.
pub proof fn lemma_loaded_program(memory: Seq<u8>, bytes: Seq<u8>, base: u16)
    requires
        memory.len() == ADDRESS_SPACE,
        base + bytes.len() <= ADDRESS_SPACE,
    ensures
        loaded(memory, bytes, base as int).len() == ADDRESS_SPACE,
        forall|i: int|
            0 <= i < bytes.len() ==> #[trigger] loaded(memory, bytes, base as int)[base + i]
                == bytes[i],
        forall|address: int|
            0 <= address < base || base + bytes.len() <= address < ADDRESS_SPACE ==> loaded(
                memory,
                bytes,
                base as int,
            )[address] == memory[address],
{
}

/// The interrupt sources are served in a fixed order. A requested reset goes
/// before everything. Unless the processor is stopped, a pending
/// non-maskable interrupt comes next, whether interrupts are disabled or
/// not. An interrupt request is served only while InterruptDisable is clear.
pub proof fn lemma_interrupt_priority(controller: InterruptController, interrupt_disable: bool)
    ensures
        controller.reset_pending ==> action_for(controller, interrupt_disable) == Action::Service(
            Interrupt::Reset,
        ),
        !controller.reset_pending && controller.state != RunState::Stopped
            && controller.nmi_pending ==> action_for(controller, interrupt_disable)
            == Action::Service(Interrupt::NonMaskable),
        action_for(controller, interrupt_disable) == Action::Service(Interrupt::Request)
            ==> controller.irq_line && !interrupt_disable && !controller.nmi_pending,
        action_for(controller, interrupt_disable) == Action::Service(Interrupt::Request)
            ==> accepted(controller, interrupt_disable).irq_line,
{
}

/// The non-maskable interrupt is served once for each transition of its line
/// from released to asserted: once served it is no longer pending, and
/// driving the line asserted again while it is asserted requests nothing.
pub proof fn lemma_non_maskable_interrupt_is_an_edge(
    controller: InterruptController,
    interrupt_disable: bool,
)
    requires
        action_for(controller, interrupt_disable) == Action::Service(Interrupt::NonMaskable),
    ensures
        !accepted(controller, interrupt_disable).nmi_pending,
        controller.nmi_line ==> !with_nmi_line(
            accepted(controller, interrupt_disable),
            true,
        ).nmi_pending,
        with_nmi_line(
            with_nmi_line(accepted(controller, interrupt_disable), false),
            true,
        ).nmi_pending,
{
}

} // verus!
