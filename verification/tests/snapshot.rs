use w65c02s::cpu::opcode::OpcodeTable;
use w65c02s::cpu::registers::Flag;
use w65c02s::cpu::{SnapshotError, RAM, SNAPSHOT_LENGTH, W65C02S};

#[test]
fn snapshot_layout() {
    let mut cpu = W65C02S::new(RAM::new());
    cpu.write(0x0000, 0x11);
    cpu.write(0x1234, 0x22);
    cpu.write(0xFFFF, 0x33);
    cpu.set_a(0xA1);
    cpu.set_x(0xB2);
    cpu.set_y(0xC3);
    cpu.set_pc(0x1234);
    cpu.set_sp(0xFD);
    cpu.set_flag(Flag::Carry, true);
    cpu.set_flag(Flag::Negative, true);
    let bytes = cpu.snapshot();
    assert_eq!(SNAPSHOT_LENGTH, 65543);
    assert_eq!(bytes.len(), 65543);
    assert_eq!(bytes[0x0000], 0x11);
    assert_eq!(bytes[0x1234], 0x22);
    assert_eq!(bytes[0xFFFF], 0x33);
    assert_eq!(bytes[0x0001], 0x00);
    assert_eq!(&bytes[65536..], &[0xA1, 0xB2, 0xC3, 0x34, 0x12, 0xFD, 0xA1]);
}

#[test]
fn restore_gives_back_what_was_saved() {
    let table = OpcodeTable::new();
    let mut cpu = W65C02S::new(RAM::new());
    assert!(cpu.load(&[0xA9, 0x05, 0x85, 0x10], 0x0600).is_ok());
    cpu.set_pc(0x0600);
    cpu.set_sp(0x80);
    cpu.set_status(0xC9);
    cpu.step(&table);
    let bytes = cpu.snapshot();
    let mut copy = match W65C02S::restore(&bytes) {
        Ok(copy) => copy,
        Err(error) => panic!("refused: {:?}", error),
    };
    assert_eq!(copy.registers(), cpu.registers());
    assert_eq!(copy.snapshot(), bytes);
    assert_eq!(copy.cycles(), 0);
    assert_eq!(copy.step(&table), 3);
    assert_eq!(copy.read(0x10), 5);
    assert_eq!(cpu.read(0x10), 0);
}

#[test]
fn restore_refuses_other_lengths() {
    let bytes = vec![0u8; 65542];
    assert_eq!(W65C02S::restore(&bytes).err(), Some(SnapshotError { length: 65542 }));
    let bytes = vec![0u8; 65544];
    assert_eq!(W65C02S::restore(&bytes).err(), Some(SnapshotError { length: 65544 }));
    assert_eq!(W65C02S::restore(&[]).err(), Some(SnapshotError { length: 0 }));
}

#[test]
fn restore_reads_little_endian_and_drops_bit_five() {
    let mut bytes = vec![0u8; 65543];
    bytes[0x0042] = 0x99;
    bytes[65536] = 1;
    bytes[65537] = 2;
    bytes[65538] = 3;
    bytes[65539] = 0xCD;
    bytes[65540] = 0xAB;
    bytes[65541] = 0xFE;
    bytes[65542] = 0x03;
    let cpu = match W65C02S::restore(&bytes) {
        Ok(cpu) => cpu,
        Err(error) => panic!("refused: {:?}", error),
    };
    assert_eq!((cpu.a(), cpu.x(), cpu.y(), cpu.pc(), cpu.sp()), (1, 2, 3, 0xABCD, 0xFE));
    assert_eq!(cpu.status(), 0x23);
    assert_eq!(cpu.read(0x0042), 0x99);
    assert!(cpu.is_ready());
}

#[test]
fn registers_can_be_replaced_whole() {
    let mut cpu = W65C02S::new(RAM::new());
    let mut registers = cpu.registers();
    registers.a = 0x12;
    registers.pc = 0xBEEF;
    registers.sp = 0x80;
    registers.overflow = true;
    cpu.set_registers(registers);
    assert_eq!(cpu.registers(), registers);
    assert_eq!((cpu.a(), cpu.pc(), cpu.sp(), cpu.status()), (0x12, 0xBEEF, 0x80, 0x60));
    assert_eq!(cpu.cycles(), 0);
}
