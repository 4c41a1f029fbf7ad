use w65c02s::cpu::registers::{Flag, RegisterFile};

const FLAGS: [Flag; 7] = [
    Flag::Carry,
    Flag::Zero,
    Flag::InterruptDisable,
    Flag::Decimal,
    Flag::BreakAtPush,
    Flag::Overflow,
    Flag::Negative,
];

#[test]
fn new_register_file_is_clear() {
    let r = RegisterFile::new();
    assert_eq!((r.a, r.x, r.y, r.pc, r.sp), (0, 0, 0, 0, 0));
    for flag in FLAGS {
        assert!(!r.flag(flag));
    }
    assert_eq!(r.pack_status(), 0x20);
}

#[test]
fn status_bits_are_in_order() {
    let weights = [0x01u8, 0x02, 0x04, 0x08, 0x10, 0x40, 0x80];
    for (flag, weight) in FLAGS.iter().zip(weights) {
        let mut r = RegisterFile::new();
        r.set_flag(*flag, true);
        assert!(r.flag(*flag));
        assert_eq!(r.pack_status(), 0x20 | weight);
        r.set_flag(*flag, false);
        assert_eq!(r, RegisterFile::new());
    }
}

#[test]
fn unpack_then_pack_keeps_all_but_bit_five() {
    for status in 0..=255u8 {
        let mut r = RegisterFile::new();
        r.a = 1;
        r.x = 2;
        r.y = 3;
        r.pc = 0x1234;
        r.sp = 0x56;
        r.unpack_status(status);
        assert_eq!(r.pack_status(), status | 0x20);
        assert_eq!((r.a, r.x, r.y, r.pc, r.sp), (1, 2, 3, 0x1234, 0x56));
        assert_eq!(r.carry, status & 0x01 != 0);
        assert_eq!(r.zero, status & 0x02 != 0);
        assert_eq!(r.interrupt_disable, status & 0x04 != 0);
        assert_eq!(r.decimal, status & 0x08 != 0);
        assert_eq!(r.break_at_push, status & 0x10 != 0);
        assert_eq!(r.overflow, status & 0x40 != 0);
        assert_eq!(r.negative, status & 0x80 != 0);
    }
}

#[test]
fn pack_then_unpack_keeps_every_flag() {
    for combination in 0..128u32 {
        let mut r = RegisterFile::new();
        for (index, flag) in FLAGS.iter().enumerate() {
            r.set_flag(*flag, combination & (1 << index) != 0);
        }
        let mut copy = RegisterFile::new();
        copy.unpack_status(r.pack_status());
        assert_eq!(copy, r);
        assert_eq!(r.pack_status() & 0x20, 0x20);
    }
}

#[test]
fn writing_bit_five_clear_reads_back_set() {
    let mut r = RegisterFile::new();
    r.unpack_status(0x00);
    assert_eq!(r.pack_status(), 0x20);
    r.unpack_status(0xDF);
    assert_eq!(r.pack_status(), 0xFF);
}

#[test]
fn result_flags_follow_the_result() {
    let mut r = RegisterFile::new();
    r.set_result_flags(0);
    assert!(r.zero && !r.negative);
    r.set_result_flags(0x80);
    assert!(!r.zero && r.negative);
    r.set_result_flags(0x7F);
    assert!(!r.zero && !r.negative);
    r.carry = true;
    r.set_result_flags(0xFF);
    assert!(r.carry && r.negative && !r.zero);
}
