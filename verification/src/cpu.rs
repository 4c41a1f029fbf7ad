//! The processor and its memory.
//!
//! [`W65C02S`] owns its registers and its [`RAM`]; nothing is shared between
//! two processors but the read-only opcode table that `step` is handed.

use crate::cpu::addressing::{operand_for, past_operand, resolve, Operand};
use crate::cpu::bus::{
    high_byte, load, loaded, low_byte, make_word, offset, read_word, split_word, word, word_at,
    wrapped, Bus, LoadError, ADDRESS_SPACE,
};
use crate::cpu::execute::{
    core_of, cycles_taken, effect, execute, interrupt, interrupted, pull, pulled, push, pushed,
    signal_of, top_of_stack, Core, Signal, RESET_VECTOR,
};
use crate::cpu::interrupt::{
    accepted, action_for, idle_controller, settled, vector_of, with_nmi_line, Action, Interrupt,
    InterruptController, RunState,
};
use crate::cpu::opcode::{entry_for, OpcodeEntry, OpcodeTable};
use crate::cpu::registers::{
    cleared_registers, flag_of, status_byte, with_flag, with_status, Flag, RegisterFile,
};
use vstd::prelude::*;
use vstd::slice::{slice_subrange, slice_to_vec};

pub mod addressing;
pub mod alu;
pub mod bus;
pub mod execute;
pub mod interrupt;
pub mod laws;
pub mod opcode;
pub mod registers;

verus! {

/// The cycles that a reset takes, whatever the processor was doing.
pub const RESET_CYCLES: u32 = 7;

/// The cycles that the sequence of a hardware interrupt takes.
pub const INTERRUPT_CYCLES: u32 = 7;

/// Flat random-access memory, one byte per address.
#[derive(Debug)]
pub struct RAM {
    /// The byte held at each address.
    pub address: [u8; 65536],
}

/// Memory that holds zero at every address.
pub open spec fn blank_memory() -> Seq<u8> {
    Seq::new(ADDRESS_SPACE as nat, |address: int| 0u8)
}

impl RAM {
    /// Memory with every byte zero.
    pub fn new() -> (ram: RAM)
        ensures
            ram.contents() == blank_memory(),
    {
        let ram = RAM { address: [0; 65536] };
        proof {
            assert(ram.contents() =~= blank_memory());
        }
        ram
    }
}

impl Clone for RAM {
    /// A second memory with the same contents.
    fn clone(&self) -> (copy: RAM)
        ensures
            copy.contents() == self.contents(),
    {
        RAM { address: self.address }
    }
}

impl Bus for RAM {
    open spec fn contents(&self) -> Seq<u8> {
        self.address@
    }

    proof fn contents_span(&self) {
    }

    fn read(&self, address: u16) -> (value: u8) {
        self.address[address as usize]
    }

    fn write(&mut self, address: u16, value: u8) {
        self.address[address as usize] = value;
    }
}

/// The W65C02S as a value: all that a step reads and changes.
pub struct Machine {
    /// The opcode of the instruction that was fetched last.
    pub ir: u8,
    pub registers: RegisterFile,
    /// The 65536 bytes of memory, in address order.
    pub memory: Seq<u8>,
    pub controller: InterruptController,
    /// Whether the ready line is asserted. While it is released the
    /// processor stands still.
    pub ready: bool,
    /// The cycles spent since power-on, modulo 2^64.
    pub cycles: u64,
}

/// The registers and memory of a machine.
pub open spec fn core_in(m: Machine) -> Core {
    core_of(m.registers, m.memory)
}

/// The machine with other registers and memory.
pub open spec fn with_core(m: Machine, c: Core) -> Machine {
    Machine { registers: c.registers, memory: c.memory, ..m }
}

/// The machine right after power-on: registers zero, flags clear, the ready
/// line asserted, no interrupt asked for, no cycle spent.
pub open spec fn powered_on(memory: Seq<u8>) -> Machine {
    Machine {
        ir: 0,
        registers: cleared_registers(),
        memory,
        controller: idle_controller(),
        ready: true,
        cycles: 0,
    }
}

/// The cycle counter after `spent` more cycles. It wraps at 2^64.
pub open spec fn counted(cycles: u64, spent: u32) -> u64 {
    if cycles + spent > u64::MAX {
        (cycles + spent - 0x1_0000_0000_0000_0000) as u64
    } else {
        (cycles + spent) as u64
    }
}

/// The machine after a reset. Nothing is pushed. InterruptDisable is set and
/// Decimal cleared; execution starts at `entry`, or where there is none at
/// the address held at the reset vector. The processor runs again, whatever
/// halted it, and a pending non-maskable interrupt is forgotten.
pub open spec fn restarted(m: Machine, entry: Option<u16>) -> Machine {
    Machine {
        registers: RegisterFile {
            interrupt_disable: true,
            decimal: false,
            pc: match entry {
                Some(address) => address,
                None => word_at(m.memory, RESET_VECTOR),
            },
            ..m.registers
        },
        controller: InterruptController {
            state: RunState::Running,
            nmi_pending: false,
            reset_pending: false,
            ..m.controller
        },
        cycles: counted(m.cycles, RESET_CYCLES),
        ..m
    }
}

/// The machine after the sequence of a hardware interrupt: the status is
/// pushed with BreakAtPush clear.
pub open spec fn serviced(m: Machine, interrupt: Interrupt) -> Machine {
    Machine {
        controller: settled(
            accepted(m.controller, m.registers.interrupt_disable),
            Signal::Continue,
        ),
        cycles: counted(m.cycles, INTERRUPT_CYCLES),
        ..with_core(m, interrupted(core_in(m), vector_of(interrupt), false))
    }
}

/// The opcode that the program counter stands on.
pub open spec fn current_opcode(m: Machine) -> u8 {
    m.memory[m.registers.pc as int]
}

/// The entry of the instruction that the program counter stands on.
pub open spec fn current_entry(m: Machine) -> OpcodeEntry {
    entry_for(current_opcode(m))
}

/// The registers once the opcode is fetched.
pub open spec fn fetched(m: Machine) -> RegisterFile {
    RegisterFile { pc: wrapped(m.registers.pc + 1), ..m.registers }
}

/// The operand of the instruction that the program counter stands on.
pub open spec fn current_operand(m: Machine) -> Operand {
    operand_for(current_entry(m).mode, fetched(m), m.memory)
}

/// The registers and memory that the operation of the next instruction
/// finds: the program counter stands past the whole instruction.
pub open spec fn decoded(m: Machine) -> Core {
    core_of(past_operand(current_entry(m).mode, fetched(m)), m.memory)
}

/// The cycles that the instruction under the program counter takes.
pub open spec fn instruction_cycles(m: Machine) -> u32 {
    cycles_taken(current_entry(m), current_operand(m), decoded(m))
}

/// The machine after the instruction under the program counter.
pub open spec fn executed(m: Machine) -> Machine {
    let after = effect(current_entry(m), current_operand(m), decoded(m));
    Machine {
        ir: current_opcode(m),
        registers: after.registers,
        memory: after.memory,
        controller: settled(m.controller, signal_of(current_entry(m).operation)),
        ready: m.ready,
        cycles: counted(m.cycles, instruction_cycles(m)),
    }
}

/// What a step does: nothing while the ready line is released, else what the
/// interrupt controller decides.
pub open spec fn step_action(m: Machine) -> Action {
    if m.ready {
        action_for(m.controller, m.registers.interrupt_disable)
    } else {
        Action::Idle
    }
}

/// The machine after one step.
pub open spec fn stepped(m: Machine) -> Machine {
    match step_action(m) {
        Action::Idle => m,
        Action::Execute => executed(m),
        Action::Service(Interrupt::Reset) => restarted(m, None),
        Action::Service(interrupt) => serviced(m, interrupt),
    }
}

/// The cycles that one step takes. A halted processor takes none.
pub open spec fn step_cycles(m: Machine) -> u32 {
    match step_action(m) {
        Action::Idle => 0,
        Action::Execute => instruction_cycles(m),
        Action::Service(Interrupt::Reset) => RESET_CYCLES,
        Action::Service(_) => INTERRUPT_CYCLES,
    }
}

/// The length of a saved processor: the memory and seven bytes of registers.
pub const SNAPSHOT_LENGTH: usize = 65543;

/// The registers as they are saved: A, X, Y, the program counter with its
/// low byte first, the stack pointer, the status byte.
pub open spec fn register_image(r: RegisterFile) -> Seq<u8> {
    seq![r.a, r.x, r.y, low_byte(r.pc), high_byte(r.pc), r.sp, status_byte(r)]
}

/// A machine as it is saved: the 65536 bytes of memory, then the registers.
/// Neither the interrupt lines nor the cycle counter are saved.
pub open spec fn snapshot_of(m: Machine) -> Seq<u8> {
    m.memory + register_image(m.registers)
}

/// The registers that seven saved bytes stand for.
pub open spec fn registers_from(image: Seq<u8>) -> RegisterFile {
    with_status(
        RegisterFile {
            a: image[0],
            x: image[1],
            y: image[2],
            pc: word(image[3], image[4]),
            sp: image[5],
            ..cleared_registers()
        },
        image[6],
    )
}

/// The machine that saved bytes stand for: memory and registers as saved,
/// the rest as at power-on.
pub open spec fn restored(bytes: Seq<u8>) -> Machine {
    Machine {
        registers: registers_from(bytes.subrange(ADDRESS_SPACE as int, SNAPSHOT_LENGTH as int)),
        ..powered_on(bytes.subrange(0, ADDRESS_SPACE as int))
    }
}

/// Why saved bytes were refused: they have not the length of a saved processor.
#[derive(Clone, Copy, Debug, PartialEq, Eq, Structural)]
pub struct SnapshotError {
    /// The number of bytes that were given.
    pub length: usize,
}

/// An emulated W65C02S with its memory.
#[derive(Debug)]
pub struct W65C02S {
    ir: u8,
    registers: RegisterFile,
    memory: RAM,
    controller: InterruptController,
    rdy: bool,
    cycles: u64,
}

impl Clone for W65C02S {
    /// A second, independent processor in the same state.
    fn clone(&self) -> (copy: W65C02S)
        ensures
            copy@ == self@,
    {
        W65C02S {
            ir: self.ir,
            registers: self.registers,
            memory: self.memory.clone(),
            controller: self.controller,
            rdy: self.rdy,
            cycles: self.cycles,
        }
    }
}

impl W65C02S {
    /// The machine that this processor is.
    pub closed spec fn view(&self) -> Machine {
        Machine {
            ir: self.ir,
            registers: self.registers,
            memory: self.memory.contents(),
            controller: self.controller,
            ready: self.rdy,
            cycles: self.cycles,
        }
    }

    /// The memory of a processor spans the whole address space.
    pub proof fn lemma_memory_spans(&self)
        ensures
            self@.memory.len() == ADDRESS_SPACE,
    {
    }

    /// A processor at power-on around the given memory.
    pub fn new(mems: RAM) -> (cpu: W65C02S)
        ensures
            cpu@ == powered_on(mems.contents()),
    {
        W65C02S {
            ir: 0,
            registers: RegisterFile::new(),
            memory: mems,
            controller: InterruptController::new(),
            rdy: true,
            cycles: 0,
        }
    }

    /// Copies a program into memory from `base_address` on. A program that
    /// would run past the last address is refused, and memory stays as it was.
    pub fn load(&mut self, bytes: &[u8], base_address: u16) -> (result: Result<(), LoadError>)
        ensures
            result is Ok <==> base_address + bytes@.len() <= ADDRESS_SPACE,
            result is Ok ==> final(self)@ == (Machine {
                memory: loaded(old(self)@.memory, bytes@, base_address as int),
                ..old(self)@
            }),
            result matches Err(e) ==> final(self)@ == old(self)@ && e == (LoadError {
                base_address,
                length: bytes.len(),
            }),
    {
        load(&mut self.memory, bytes, base_address)
    }

    /// Resets the processor at once, from any state: InterruptDisable is
    /// set, Decimal is cleared and execution starts at the address held at
    /// 0xFFFC and 0xFFFD. Nothing is pushed. Returns the cycles taken.
    pub fn reset(&mut self) -> (cycles: u32)
        ensures
            final(self)@ == restarted(old(self)@, None),
            cycles == RESET_CYCLES,
    {
        self.restart(None)
    }

    /// Resets the processor as `reset` does, but starts execution at `entry`
    /// and leaves the reset vector unread.
    pub fn reset_to(&mut self, entry: u16) -> (cycles: u32)
        ensures
            final(self)@ == restarted(old(self)@, Some(entry)),
            cycles == RESET_CYCLES,
    {
        self.restart(Some(entry))
    }

    /// The reset sequence.
    fn restart(&mut self, entry: Option<u16>) -> (cycles: u32)
        ensures
            final(self)@ == restarted(old(self)@, entry),
            cycles == RESET_CYCLES,
    {
        self.registers.interrupt_disable = true;
        self.registers.decimal = false;
        self.registers.pc = match entry {
            Some(address) => address,
            None => read_word(&self.memory, RESET_VECTOR),
        };
        self.controller.state = RunState::Running;
        self.controller.nmi_pending = false;
        self.controller.reset_pending = false;
        self.cycles = self.cycles.wrapping_add(RESET_CYCLES as u64);
        RESET_CYCLES
    }

    /// Performs one step and returns the cycles it took.
    ///
    /// While the ready line is released nothing happens. Else the interrupt
    /// controller is asked first: a reset, a non-maskable interrupt or an
    /// interrupt request is served in place of an instruction, and a halted
    /// processor stays halted. Otherwise the instruction under the program
    /// counter is fetched, decoded through `table`, and executed.
    pub fn step(&mut self, table: &OpcodeTable) -> (cycles: u32)
        ensures
            final(self)@ == stepped(old(self)@),
            cycles == step_cycles(old(self)@),
    {
        if !self.rdy {
            return 0;
        }
        match self.controller.poll(self.registers.interrupt_disable) {
            Action::Idle => 0,
            Action::Service(Interrupt::Reset) => self.restart(None),
            Action::Service(which) => {
                interrupt(&mut self.registers, &mut self.memory, which.vector(), false);
                self.controller.complete(Signal::Continue);
                self.cycles = self.cycles.wrapping_add(INTERRUPT_CYCLES as u64);
                INTERRUPT_CYCLES
            },
            Action::Execute => {
                let opcode = self.memory.read(self.registers.pc);
                self.ir = opcode;
                self.registers.pc = offset(self.registers.pc, 1);
                let entry = table.lookup(opcode);
                let operand = resolve(entry.mode, &mut self.registers, &self.memory);
                let outcome = execute(entry, operand, &mut self.registers, &mut self.memory);
                self.controller.complete(outcome.signal);
                self.cycles = self.cycles.wrapping_add(outcome.cycles as u64);
                outcome.cycles
            },
        }
    }

    /// Pushes a byte onto the stack.
    pub fn push(&mut self, value: u8)
        ensures
            final(self)@ == with_core(old(self)@, pushed(core_in(old(self)@), value)),
    {
        push(&mut self.registers, &mut self.memory, value);
    }

    /// Pulls a byte from the stack.
    pub fn pull(&mut self) -> (value: u8)
        ensures
            value == top_of_stack(core_in(old(self)@)),
            final(self)@ == with_core(old(self)@, pulled(core_in(old(self)@))),
    {
        pull(&mut self.registers, &self.memory)
    }

    /// The registers and flags.
    pub fn registers(&self) -> (registers: RegisterFile)
        ensures
            registers == self@.registers,
    {
        self.registers
    }

    /// Replaces the registers and flags.
    pub fn set_registers(&mut self, registers: RegisterFile)
        ensures
            final(self)@ == (Machine { registers, ..old(self)@ }),
    {
        self.registers = registers;
    }

    /// The accumulator.
    pub fn a(&self) -> (value: u8)
        ensures
            value == self@.registers.a,
    {
        self.registers.a
    }

    /// Index register X.
    pub fn x(&self) -> (value: u8)
        ensures
            value == self@.registers.x,
    {
        self.registers.x
    }

    /// Index register Y.
    pub fn y(&self) -> (value: u8)
        ensures
            value == self@.registers.y,
    {
        self.registers.y
    }

    /// The program counter.
    pub fn pc(&self) -> (value: u16)
        ensures
            value == self@.registers.pc,
    {
        self.registers.pc
    }

    /// The stack pointer.
    pub fn sp(&self) -> (value: u8)
        ensures
            value == self@.registers.sp,
    {
        self.registers.sp
    }

    /// One flag.
    pub fn flag(&self, flag: Flag) -> (value: bool)
        ensures
            value == flag_of(self@.registers, flag),
    {
        self.registers.flag(flag)
    }

    /// The packed status byte, with bit 5 set.
    pub fn status(&self) -> (status: u8)
        ensures
            status == status_byte(self@.registers),
    {
        self.registers.pack_status()
    }

    /// Writes the accumulator.
    pub fn set_a(&mut self, value: u8)
        ensures
            final(self)@ == (Machine {
                registers: RegisterFile { a: value, ..old(self)@.registers },
                ..old(self)@
            }),
    {
        self.registers.a = value;
    }

    /// Writes index register X.
    pub fn set_x(&mut self, value: u8)
        ensures
            final(self)@ == (Machine {
                registers: RegisterFile { x: value, ..old(self)@.registers },
                ..old(self)@
            }),
    {
        self.registers.x = value;
    }

    /// Writes index register Y.
    pub fn set_y(&mut self, value: u8)
        ensures
            final(self)@ == (Machine {
                registers: RegisterFile { y: value, ..old(self)@.registers },
                ..old(self)@
            }),
    {
        self.registers.y = value;
    }

    /// Writes the program counter.
    pub fn set_pc(&mut self, value: u16)
        ensures
            final(self)@ == (Machine {
                registers: RegisterFile { pc: value, ..old(self)@.registers },
                ..old(self)@
            }),
    {
        self.registers.pc = value;
    }

    /// Writes the stack pointer.
    pub fn set_sp(&mut self, value: u8)
        ensures
            final(self)@ == (Machine {
                registers: RegisterFile { sp: value, ..old(self)@.registers },
                ..old(self)@
            }),
    {
        self.registers.sp = value;
    }

    /// Writes one flag.
    pub fn set_flag(&mut self, flag: Flag, value: bool)
        ensures
            final(self)@ == (Machine {
                registers: with_flag(old(self)@.registers, flag, value),
                ..old(self)@
            }),
    {
        self.registers.set_flag(flag, value);
    }

    /// Takes the seven flags from a status byte.
    pub fn set_status(&mut self, status: u8)
        ensures
            final(self)@ == (Machine {
                registers: with_status(old(self)@.registers, status),
                ..old(self)@
            }),
    {
        self.registers.unpack_status(status);
    }

    /// The byte of memory at `address`.
    pub fn read(&self, address: u16) -> (value: u8)
        ensures
            value == self@.memory[address as int],
    {
        self.memory.read(address)
    }

    /// Stores a byte in memory at `address`.
    pub fn write(&mut self, address: u16, value: u8)
        ensures
            final(self)@ == (Machine {
                memory: old(self)@.memory.update(address as int, value),
                ..old(self)@
            }),
    {
        self.memory.write(address, value);
    }

    /// The opcode of the instruction that was fetched last.
    pub fn instruction_register(&self) -> (opcode: u8)
        ensures
            opcode == self@.ir,
    {
        self.ir
    }

    /// The cycles spent since power-on, modulo 2^64.
    pub fn cycles(&self) -> (cycles: u64)
        ensures
            cycles == self@.cycles,
    {
        self.cycles
    }

    /// What the processor is doing.
    pub fn state(&self) -> (state: RunState)
        ensures
            state == self@.controller.state,
    {
        self.controller.state
    }

    /// The interrupt lines and what is remembered of them.
    pub fn controller(&self) -> (controller: InterruptController)
        ensures
            controller == self@.controller,
    {
        self.controller
    }

    /// Whether the ready line is asserted.
    pub fn is_ready(&self) -> (ready: bool)
        ensures
            ready == self@.ready,
    {
        self.rdy
    }

    /// Drives the ready line. While it is released, steps do nothing.
    pub fn set_ready(&mut self, asserted: bool)
        ensures
            final(self)@ == (Machine { ready: asserted, ..old(self)@ }),
    {
        self.rdy = asserted;
    }

    /// Drives the interrupt request line.
    pub fn set_irq(&mut self, asserted: bool)
        ensures
            final(self)@ == (Machine {
                controller: InterruptController { irq_line: asserted, ..old(self)@.controller },
                ..old(self)@
            }),
    {
        self.controller.set_irq(asserted);
    }

    /// Drives the non-maskable interrupt line. Each transition from released
    /// to asserted is served once.
    pub fn set_nmi(&mut self, asserted: bool)
        ensures
            final(self)@ == (Machine {
                controller: with_nmi_line(old(self)@.controller, asserted),
                ..old(self)@
            }),
    {
        self.controller.set_nmi(asserted);
    }

    /// Requests a reset, which the next step serves before anything else.
    pub fn request_reset(&mut self)
        ensures
            final(self)@ == (Machine {
                controller: InterruptController { reset_pending: true, ..old(self)@.controller },
                ..old(self)@
            }),
    {
        self.controller.request_reset();
    }
}

impl W65C02S {
    /// Saves the processor: the memory, then A, X, Y, the program counter
    /// with its low byte first, the stack pointer and the status byte.
    pub fn snapshot(&self) -> (bytes: Vec<u8>)
        ensures
            bytes@ == snapshot_of(self@),
    {
        let mut bytes = slice_to_vec(self.memory.address.as_slice());
        let (low, high) = split_word(self.registers.pc);
        bytes.push(self.registers.a);
        bytes.push(self.registers.x);
        bytes.push(self.registers.y);
        bytes.push(low);
        bytes.push(high);
        bytes.push(self.registers.sp);
        bytes.push(self.registers.pack_status());
        proof {
            assert(bytes@ =~= snapshot_of(self@));
        }
        bytes
    }

    /// Builds a processor from saved bytes. Bytes of any other length than
    /// that of a saved processor are refused.
    pub fn restore(bytes: &[u8]) -> (result: Result<W65C02S, SnapshotError>)
        ensures
            result is Ok <==> bytes@.len() == SNAPSHOT_LENGTH,
            result matches Ok(cpu) ==> cpu@ == restored(bytes@),
            result matches Err(e) ==> e == (SnapshotError { length: bytes.len() }),
    {
        if bytes.len() != SNAPSHOT_LENGTH {
            return Err(SnapshotError { length: bytes.len() });
        }
        let mut memory = RAM::new();
        let image = slice_subrange(bytes, 0, ADDRESS_SPACE);
        let loading = load(&mut memory, image, 0);
        proof {
            assert(memory.contents() =~= bytes@.subrange(0, ADDRESS_SPACE as int));
        }
        let mut registers = RegisterFile::new();
        registers.a = bytes[ADDRESS_SPACE];
        registers.x = bytes[ADDRESS_SPACE + 1];
        registers.y = bytes[ADDRESS_SPACE + 2];
        registers.pc = make_word(bytes[ADDRESS_SPACE + 3], bytes[ADDRESS_SPACE + 4]);
        registers.sp = bytes[ADDRESS_SPACE + 5];
        registers.unpack_status(bytes[ADDRESS_SPACE + 6]);
        let mut cpu = W65C02S::new(memory);
        cpu.registers = registers;
        Ok(cpu)
    }
}

} // verus!
