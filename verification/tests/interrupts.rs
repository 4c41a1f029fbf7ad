use w65c02s::cpu::execute::Signal;
use w65c02s::cpu::interrupt::{Action, Interrupt, InterruptController, RunState};
use w65c02s::cpu::opcode::OpcodeTable;
use w65c02s::cpu::registers::Flag;
use w65c02s::cpu::{RAM, INTERRUPT_CYCLES, RESET_CYCLES, W65C02S};

fn machine(program: &[u8], at: u16) -> W65C02S {
    let mut cpu = W65C02S::new(RAM::new());
    assert!(cpu.load(program, at).is_ok());
    cpu.write(0xFFFA, 0x00);
    cpu.write(0xFFFB, 0x04);
    cpu.write(0xFFFC, 0x00);
    cpu.write(0xFFFD, 0x80);
    cpu.write(0xFFFE, 0x00);
    cpu.write(0xFFFF, 0x03);
    cpu.write(0x0300, 0x40);
    cpu.write(0x0400, 0x40);
    cpu.write(0x8000, 0xEA);
    cpu.set_pc(at);
    cpu.set_sp(0xFF);
    cpu
}

#[test]
fn a_new_processor_is_at_power_on() {
    let cpu = W65C02S::new(RAM::new());
    assert_eq!((cpu.a(), cpu.x(), cpu.y(), cpu.pc(), cpu.sp()), (0, 0, 0, 0, 0));
    assert_eq!(cpu.status(), 0x20);
    assert_eq!(cpu.cycles(), 0);
    assert_eq!(cpu.instruction_register(), 0);
    assert_eq!(cpu.state(), RunState::Running);
    assert!(cpu.is_ready());
    assert_eq!(cpu.controller(), InterruptController::new());
    assert_eq!(cpu.read(0x0000), 0);
    assert_eq!(cpu.read(0xFFFF), 0);
}

#[test]
fn a_new_processor_keeps_the_memory_it_is_given() {
    let mut ram = RAM::new();
    ram.address[0x1234] = 0x56;
    let cpu = W65C02S::new(ram);
    assert_eq!(cpu.read(0x1234), 0x56);
    assert_eq!(cpu.read(0x1235), 0x00);
}

#[test]
fn reset_loads_the_vector_whatever_came_before() {
    assert_eq!(RESET_CYCLES, 7);
    for (a, sp, status) in [(0x00u8, 0x00u8, 0x00u8), (0x12, 0x42, 0xFF), (0xFF, 0xFF, 0x08), (0x80, 0x01, 0xC3)] {
        let mut cpu = machine(&[0xEA], 0x0200);
        cpu.set_a(a);
        cpu.set_x(0x34);
        cpu.set_y(0x56);
        cpu.set_sp(sp);
        cpu.set_status(status);
        cpu.write(0xFFFC, 0xCD);
        cpu.write(0xFFFD, 0xAB);
        let stack = cpu.read(0x0100 + sp as u16);
        assert_eq!(cpu.reset(), 7);
        assert_eq!(cpu.pc(), 0xABCD);
        assert!(cpu.flag(Flag::InterruptDisable));
        assert!(!cpu.flag(Flag::Decimal));
        assert_eq!(cpu.status(), (status | 0x24) & !0x08);
        assert_eq!((cpu.a(), cpu.x(), cpu.y(), cpu.sp()), (a, 0x34, 0x56, sp));
        assert_eq!(cpu.read(0x0100 + sp as u16), stack);
        assert_eq!(cpu.cycles(), 7);
        assert_eq!(cpu.state(), RunState::Running);
    }
}

#[test]
fn reset_to_an_entry_point_leaves_the_vector_unread() {
    let mut cpu = machine(&[0xA9, 0x05], 0x0600);
    cpu.set_flag(Flag::Decimal, true);
    assert_eq!(cpu.reset_to(0x0600), 7);
    assert_eq!(cpu.pc(), 0x0600);
    assert!(cpu.flag(Flag::InterruptDisable));
    assert!(!cpu.flag(Flag::Decimal));
    let table = OpcodeTable::new();
    assert_eq!(cpu.step(&table), 2);
    assert_eq!(cpu.a(), 5);
    assert_eq!(cpu.cycles(), 9);
}

#[test]
fn interrupt_request_is_served_when_not_disabled() {
    assert_eq!(INTERRUPT_CYCLES, 7);
    let table = OpcodeTable::new();
    let mut cpu = machine(&[0xEA, 0xEA], 0x0200);
    cpu.set_flag(Flag::Carry, true);
    cpu.set_flag(Flag::BreakAtPush, true);
    cpu.set_irq(true);
    assert_eq!(cpu.step(&table), 7);
    assert_eq!(cpu.pc(), 0x0300);
    assert!(cpu.flag(Flag::InterruptDisable));
    assert_eq!(cpu.sp(), 0xFC);
    assert_eq!(cpu.read(0x01FF), 0x02);
    assert_eq!(cpu.read(0x01FE), 0x00);
    assert_eq!(cpu.read(0x01FD), 0x21);
    assert_eq!(cpu.state(), RunState::Running);
    cpu.set_irq(false);
    assert_eq!(cpu.step(&table), 6);
    assert_eq!(cpu.pc(), 0x0200);
    assert_eq!(cpu.status(), 0x21);
    assert_eq!(cpu.sp(), 0xFF);
    assert_eq!(cpu.step(&table), 2);
    assert_eq!(cpu.pc(), 0x0201);
    assert_eq!(cpu.cycles(), 15);
}

#[test]
fn interrupt_request_is_a_level() {
    let table = OpcodeTable::new();
    let mut cpu = machine(&[0xEA, 0xEA], 0x0200);
    cpu.set_irq(true);
    assert_eq!(cpu.step(&table), 7);
    assert_eq!(cpu.pc(), 0x0300);
    assert_eq!(cpu.step(&table), 6);
    assert_eq!(cpu.pc(), 0x0200);
    assert!(!cpu.flag(Flag::InterruptDisable));
    assert_eq!(cpu.step(&table), 7);
    assert_eq!(cpu.pc(), 0x0300);
}

#[test]
fn interrupt_request_waits_while_disabled() {
    let table = OpcodeTable::new();
    let mut cpu = machine(&[0xEA, 0x58, 0xEA], 0x0200);
    cpu.set_flag(Flag::InterruptDisable, true);
    cpu.set_irq(true);
    assert_eq!(cpu.step(&table), 2);
    assert_eq!(cpu.pc(), 0x0201);
    assert_eq!(cpu.step(&table), 2);
    assert_eq!(cpu.pc(), 0x0202);
    assert_eq!(cpu.step(&table), 7);
    assert_eq!(cpu.pc(), 0x0300);
    assert_eq!(cpu.read(0x01FE), 0x02);
}

#[test]
fn non_maskable_interrupt_is_served_once_per_edge() {
    let table = OpcodeTable::new();
    let mut cpu = machine(&[0xEA, 0xEA, 0xEA], 0x0200);
    cpu.write(0x0400, 0xEA);
    cpu.write(0x0401, 0xEA);
    cpu.set_flag(Flag::InterruptDisable, true);
    cpu.set_nmi(true);
    assert_eq!(cpu.step(&table), 7);
    assert_eq!(cpu.pc(), 0x0400);
    assert_eq!(cpu.read(0x01FD), 0x24);
    assert_eq!(cpu.step(&table), 2);
    assert_eq!(cpu.pc(), 0x0401);
    cpu.set_nmi(true);
    assert_eq!(cpu.step(&table), 2);
    assert_eq!(cpu.pc(), 0x0402);
    cpu.set_nmi(false);
    cpu.set_pc(0x0200);
    assert_eq!(cpu.step(&table), 2);
    cpu.set_nmi(true);
    assert_eq!(cpu.step(&table), 7);
    assert_eq!(cpu.pc(), 0x0400);
    assert_eq!(cpu.read(0x01FB), 0x01);
    assert_eq!(cpu.read(0x01FC), 0x02);
}

#[test]
fn non_maskable_interrupt_goes_before_interrupt_request() {
    let table = OpcodeTable::new();
    let mut cpu = machine(&[0xEA], 0x0200);
    cpu.set_irq(true);
    cpu.set_nmi(true);
    assert_eq!(cpu.step(&table), 7);
    assert_eq!(cpu.pc(), 0x0400);
    assert_eq!(cpu.step(&table), 6);
    assert_eq!(cpu.pc(), 0x0200);
    assert_eq!(cpu.step(&table), 7);
    assert_eq!(cpu.pc(), 0x0300);
}

#[test]
fn break_sets_the_break_bit_and_hardware_clears_it() {
    let table = OpcodeTable::new();
    let mut cpu = machine(&[0x00, 0xEA], 0x0200);
    cpu.set_flag(Flag::Overflow, true);
    assert_eq!(cpu.step(&table), 7);
    assert_eq!(cpu.pc(), 0x0300);
    assert_eq!(cpu.read(0x01FD), 0x70);
    assert_eq!(cpu.read(0x01FD) & 0x10, 0x10);
    assert_eq!(cpu.read(0x01FE), 0x01);
    assert_eq!(cpu.read(0x01FF), 0x02);
    assert!(!cpu.flag(Flag::BreakAtPush));
    assert_eq!(cpu.status(), 0x64);

    let mut cpu = machine(&[0xEA], 0x0200);
    cpu.set_flag(Flag::Overflow, true);
    cpu.set_irq(true);
    assert_eq!(cpu.step(&table), 7);
    assert_eq!(cpu.read(0x01FD), 0x60);
    assert_eq!(cpu.read(0x01FD) & 0x10, 0x00);

    let mut cpu = machine(&[0xEA], 0x0200);
    cpu.set_flag(Flag::Overflow, true);
    cpu.set_flag(Flag::BreakAtPush, true);
    cpu.set_nmi(true);
    assert_eq!(cpu.step(&table), 7);
    assert_eq!(cpu.read(0x01FD), 0x60);
}

#[test]
fn return_from_interrupt_restores_status_and_program_counter() {
    let table = OpcodeTable::new();
    for status in [0x00u8, 0x01, 0x42, 0x88, 0xC3, 0xFB] {
        let mut cpu = machine(&[0x00], 0x1234);
        cpu.set_status(status & !0x04);
        assert_eq!(cpu.step(&table), 7);
        let pushed = cpu.read(0x01FD);
        assert_eq!(pushed, (status & !0x04) | 0x30);
        assert_eq!(cpu.step(&table), 6);
        assert_eq!(cpu.status(), pushed);
        assert_eq!(cpu.pc(), 0x1235);
        assert_eq!(cpu.sp(), 0xFF);

        let mut cpu = machine(&[0xEA], 0x1234);
        cpu.set_status(status & !0x04);
        cpu.set_irq(true);
        assert_eq!(cpu.step(&table), 7);
        cpu.set_irq(false);
        let pushed = cpu.read(0x01FD);
        assert_eq!(pushed, ((status & !0x04) | 0x20) & !0x10);
        assert_eq!(cpu.step(&table), 6);
        assert_eq!(cpu.status(), pushed);
        assert_eq!(cpu.pc(), 0x1234);
        assert_eq!(cpu.sp(), 0xFF);
    }
}

#[test]
fn wait_halts_until_an_interrupt_request() {
    let table = OpcodeTable::new();
    let mut cpu = machine(&[0xCB, 0xEA], 0x0200);
    assert_eq!(cpu.step(&table), 3);
    assert_eq!(cpu.state(), RunState::Waiting);
    assert_eq!(cpu.pc(), 0x0201);
    let halted = cpu.registers();
    assert_eq!(cpu.step(&table), 0);
    assert_eq!(cpu.step(&table), 0);
    assert_eq!(cpu.registers(), halted);
    assert_eq!(cpu.cycles(), 3);
    assert_eq!(cpu.state(), RunState::Waiting);
    cpu.set_irq(true);
    assert_eq!(cpu.step(&table), 7);
    assert_eq!(cpu.state(), RunState::Running);
    assert_eq!(cpu.pc(), 0x0300);
    assert_eq!(cpu.read(0x01FF), 0x02);
    assert_eq!(cpu.read(0x01FE), 0x01);
    cpu.set_irq(false);
    assert_eq!(cpu.step(&table), 6);
    assert_eq!(cpu.pc(), 0x0201);
    assert_eq!(cpu.step(&table), 2);
    assert_eq!(cpu.pc(), 0x0202);
}

#[test]
fn a_masked_request_wakes_a_waiting_processor() {
    let table = OpcodeTable::new();
    let mut cpu = machine(&[0xCB, 0xEA], 0x0200);
    cpu.set_flag(Flag::InterruptDisable, true);
    assert_eq!(cpu.step(&table), 3);
    assert_eq!(cpu.step(&table), 0);
    cpu.set_irq(true);
    assert_eq!(cpu.step(&table), 2);
    assert_eq!(cpu.pc(), 0x0202);
    assert_eq!(cpu.state(), RunState::Running);
    assert_eq!(cpu.sp(), 0xFF);
}

#[test]
fn a_non_maskable_interrupt_wakes_a_waiting_processor() {
    let table = OpcodeTable::new();
    let mut cpu = machine(&[0xCB, 0xEA], 0x0200);
    cpu.set_flag(Flag::InterruptDisable, true);
    assert_eq!(cpu.step(&table), 3);
    cpu.set_nmi(true);
    assert_eq!(cpu.step(&table), 7);
    assert_eq!(cpu.pc(), 0x0400);
    assert_eq!(cpu.read(0x01FE), 0x01);
    assert_eq!(cpu.state(), RunState::Running);
}

#[test]
fn stop_halts_until_reset() {
    let table = OpcodeTable::new();
    let mut cpu = machine(&[0xDB, 0xEA], 0x0200);
    assert_eq!(cpu.step(&table), 3);
    assert_eq!(cpu.state(), RunState::Stopped);
    cpu.set_irq(true);
    cpu.set_nmi(true);
    assert_eq!(cpu.step(&table), 0);
    assert_eq!(cpu.state(), RunState::Stopped);
    assert_eq!(cpu.pc(), 0x0201);
    assert_eq!(cpu.sp(), 0xFF);
    cpu.request_reset();
    assert_eq!(cpu.step(&table), 7);
    assert_eq!(cpu.state(), RunState::Running);
    assert_eq!(cpu.pc(), 0x8000);
    assert_eq!(cpu.sp(), 0xFF);
    assert_eq!(cpu.step(&table), 2);
    assert_eq!(cpu.pc(), 0x8001);

    let mut cpu = machine(&[0xDB], 0x0200);
    assert_eq!(cpu.step(&table), 3);
    assert_eq!(cpu.reset(), 7);
    assert_eq!(cpu.state(), RunState::Running);
    assert_eq!(cpu.pc(), 0x8000);
}

#[test]
fn a_released_ready_line_stalls_every_step() {
    let table = OpcodeTable::new();
    let mut cpu = machine(&[0xA9, 0x05], 0x0200);
    cpu.set_ready(false);
    assert!(!cpu.is_ready());
    cpu.set_nmi(true);
    cpu.set_irq(true);
    cpu.request_reset();
    let before = (cpu.registers(), cpu.controller(), cpu.cycles());
    for _ in 0..5 {
        assert_eq!(cpu.step(&table), 0);
    }
    assert_eq!((cpu.registers(), cpu.controller(), cpu.cycles()), before);
    assert_eq!(cpu.read(0x01FF), 0);
    cpu.set_ready(true);
    assert_eq!(cpu.step(&table), 7);
    assert_eq!(cpu.pc(), 0x8000);
}

#[test]
fn reset_goes_before_everything() {
    let table = OpcodeTable::new();
    let mut cpu = machine(&[0xEA], 0x0200);
    cpu.set_nmi(true);
    cpu.set_irq(true);
    cpu.request_reset();
    assert_eq!(cpu.step(&table), 7);
    assert_eq!(cpu.pc(), 0x8000);
    assert_eq!(cpu.sp(), 0xFF);
    assert!(!cpu.controller().nmi_pending);
    assert!(!cpu.controller().reset_pending);
    assert_eq!(cpu.step(&table), 2);
    assert_eq!(cpu.pc(), 0x8001);
}

#[test]
fn the_controller_decides_by_priority() {
    let mut controller = InterruptController::new();
    assert_eq!(controller.state, RunState::Running);
    assert_eq!(controller.poll(false), Action::Execute);
    controller.set_irq(true);
    assert_eq!(controller.poll(true), Action::Execute);
    assert_eq!(controller.state, RunState::Running);
    assert_eq!(controller.poll(false), Action::Service(Interrupt::Request));
    assert_eq!(controller.state, RunState::InSequence);
    controller.complete(Signal::Continue);
    assert_eq!(controller.state, RunState::Running);
    controller.set_nmi(true);
    assert!(controller.nmi_pending);
    assert_eq!(controller.poll(false), Action::Service(Interrupt::NonMaskable));
    assert!(!controller.nmi_pending && controller.nmi_line);
    controller.complete(Signal::Continue);
    controller.set_nmi(true);
    assert!(!controller.nmi_pending);
    controller.set_nmi(false);
    controller.set_nmi(true);
    controller.request_reset();
    assert_eq!(controller.poll(false), Action::Service(Interrupt::Reset));
    assert!(!controller.nmi_pending && !controller.reset_pending);
    controller.complete(Signal::Continue);
    assert_eq!(controller.poll(false), Action::Service(Interrupt::Request));
}

#[test]
fn the_controller_halts_and_wakes() {
    let mut controller = InterruptController::new();
    controller.complete(Signal::Wait);
    assert_eq!(controller.state, RunState::Waiting);
    assert_eq!(controller.poll(false), Action::Idle);
    assert_eq!(controller.poll(true), Action::Idle);
    assert_eq!(controller.state, RunState::Waiting);
    controller.set_irq(true);
    assert_eq!(controller.poll(true), Action::Execute);
    assert_eq!(controller.state, RunState::Running);
    controller.complete(Signal::Stop);
    assert_eq!(controller.state, RunState::Stopped);
    controller.set_nmi(true);
    assert_eq!(controller.poll(false), Action::Idle);
    assert_eq!(controller.state, RunState::Stopped);
    controller.request_reset();
    assert_eq!(controller.poll(false), Action::Service(Interrupt::Reset));
    assert_eq!(controller.state, RunState::InSequence);
}

#[test]
fn vectors() {
    assert_eq!(Interrupt::NonMaskable.vector(), 0xFFFA);
    assert_eq!(Interrupt::Reset.vector(), 0xFFFC);
    assert_eq!(Interrupt::Request.vector(), 0xFFFE);
}

#[test]
fn a_clone_is_an_independent_processor() {
    let table = OpcodeTable::new();
    let mut cpu = machine(&[0xA9, 0x05, 0x85, 0x10], 0x0200);
    cpu.set_irq(true);
    cpu.set_flag(Flag::InterruptDisable, true);
    cpu.step(&table);
    let mut copy = cpu.clone();
    assert_eq!(copy.registers(), cpu.registers());
    assert_eq!(copy.controller(), cpu.controller());
    assert_eq!(copy.cycles(), cpu.cycles());
    assert_eq!(copy.snapshot(), cpu.snapshot());
    copy.step(&table);
    assert_eq!(copy.read(0x10), 5);
    assert_eq!(cpu.read(0x10), 0);
    assert_eq!(cpu.pc(), 0x0202);
    assert_eq!(copy.pc(), 0x0204);
}
