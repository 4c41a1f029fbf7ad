use w65c02s::cpu::opcode::{
    decode, AddressingMode, Condition, Family, Mnemonic, OpcodeEntry, OpcodeTable, Operation,
    Register,
};

fn entry(mnemonic: Mnemonic, mode: AddressingMode, cycles: u8, operation: Operation) -> OpcodeEntry {
    OpcodeEntry { mnemonic, mode, cycles, operation }
}

#[test]
fn every_byte_has_one_entry() {
    let table = OpcodeTable::new();
    for opcode in 0..=255u8 {
        let looked_up = table.lookup(opcode);
        assert_eq!(looked_up, decode(opcode));
        assert_eq!(looked_up, table.lookup(opcode));
        assert!(looked_up.cycles >= 1 && looked_up.cycles <= 8);
        assert!(looked_up.length() >= 1 && looked_up.length() <= 3);
    }
}

#[test]
fn no_operations_fill_the_gaps() {
    let mut undefined = 0;
    let mut cycles = 0u32;
    for opcode in 0..=255u8 {
        let e = decode(opcode);
        cycles += e.cycles as u32;
        if e.operation == Operation::Nop {
            assert_eq!(e.mnemonic, Mnemonic::NOP);
            undefined += 1;
        }
    }
    assert_eq!(undefined, 45);
    assert_eq!(cycles, 942);
}

#[test]
fn no_operations_have_length_and_cost() {
    let cases: [(u8, u16, u8); 9] = [
        (0xEA, 1, 2),
        (0x03, 1, 1),
        (0xFB, 1, 1),
        (0x02, 2, 2),
        (0x44, 2, 3),
        (0x54, 2, 4),
        (0x5C, 3, 8),
        (0xDC, 3, 4),
        (0xFC, 3, 4),
    ];
    for (opcode, length, cycles) in cases {
        let e = decode(opcode);
        assert_eq!(e.operation, Operation::Nop);
        assert_eq!(e.length(), length);
        assert_eq!(e.cycles, cycles);
    }
}

#[test]
fn documented_entries() {
    assert_eq!(decode(0x00), entry(Mnemonic::BRK, AddressingMode::Implied, 7, Operation::Break));
    assert_eq!(decode(0xA9), entry(Mnemonic::LDA, AddressingMode::Immediate, 2, Operation::Load(Register::A)));
    assert_eq!(decode(0x85), entry(Mnemonic::STA, AddressingMode::ZeroPage, 3, Operation::Store(Register::A)));
    assert_eq!(decode(0x69), entry(Mnemonic::ADC, AddressingMode::Immediate, 2, Operation::Add));
    assert_eq!(decode(0xF1), entry(Mnemonic::SBC, AddressingMode::IndirectIndexed, 5, Operation::Subtract));
    assert_eq!(decode(0x81), entry(Mnemonic::STA, AddressingMode::IndexedIndirect, 6, Operation::Store(Register::A)));
    assert_eq!(decode(0x91), entry(Mnemonic::STA, AddressingMode::IndirectIndexed, 6, Operation::Store(Register::A)));
    assert_eq!(decode(0x92), entry(Mnemonic::STA, AddressingMode::ZeroPageIndirect, 5, Operation::Store(Register::A)));
    assert_eq!(decode(0x9D), entry(Mnemonic::STA, AddressingMode::AbsoluteX, 5, Operation::Store(Register::A)));
    assert_eq!(decode(0xBD), entry(Mnemonic::LDA, AddressingMode::AbsoluteX, 4, Operation::Load(Register::A)));
    assert_eq!(decode(0xB6), entry(Mnemonic::LDX, AddressingMode::ZeroPageY, 4, Operation::Load(Register::X)));
    assert_eq!(decode(0xBE), entry(Mnemonic::LDX, AddressingMode::AbsoluteY, 4, Operation::Load(Register::X)));
    assert_eq!(decode(0x96), entry(Mnemonic::STX, AddressingMode::ZeroPageY, 4, Operation::Store(Register::X)));
    assert_eq!(decode(0x64), entry(Mnemonic::STZ, AddressingMode::ZeroPage, 3, Operation::StoreZero));
    assert_eq!(decode(0x9C), entry(Mnemonic::STZ, AddressingMode::Absolute, 4, Operation::StoreZero));
    assert_eq!(decode(0x9E), entry(Mnemonic::STZ, AddressingMode::AbsoluteX, 5, Operation::StoreZero));
    assert_eq!(decode(0x0A), entry(Mnemonic::ASL, AddressingMode::Accumulator, 2, Operation::ShiftLeft));
    assert_eq!(decode(0x1A), entry(Mnemonic::INC, AddressingMode::Accumulator, 2, Operation::Increment));
    assert_eq!(decode(0x3A), entry(Mnemonic::DEC, AddressingMode::Accumulator, 2, Operation::Decrement));
    assert_eq!(decode(0x1E), entry(Mnemonic::ASL, AddressingMode::AbsoluteX, 6, Operation::ShiftLeft));
    assert_eq!(decode(0xFE), entry(Mnemonic::INC, AddressingMode::AbsoluteX, 7, Operation::Increment));
    assert_eq!(decode(0xDE), entry(Mnemonic::DEC, AddressingMode::AbsoluteX, 7, Operation::Decrement));
    assert_eq!(decode(0x4C), entry(Mnemonic::JMP, AddressingMode::Absolute, 3, Operation::Jump));
    assert_eq!(decode(0x6C), entry(Mnemonic::JMP, AddressingMode::Indirect, 6, Operation::Jump));
    assert_eq!(decode(0x7C), entry(Mnemonic::JMP, AddressingMode::AbsoluteIndexedIndirect, 6, Operation::Jump));
    assert_eq!(decode(0x20), entry(Mnemonic::JSR, AddressingMode::Absolute, 6, Operation::Call));
    assert_eq!(decode(0x60), entry(Mnemonic::RTS, AddressingMode::Implied, 6, Operation::Return));
    assert_eq!(decode(0x40), entry(Mnemonic::RTI, AddressingMode::Implied, 6, Operation::ReturnFromInterrupt));
    assert_eq!(decode(0x80), entry(Mnemonic::BRA, AddressingMode::Relative, 3, Operation::BranchAlways));
    assert_eq!(decode(0x89), entry(Mnemonic::BIT, AddressingMode::Immediate, 2, Operation::BitTest));
    assert_eq!(decode(0x3C), entry(Mnemonic::BIT, AddressingMode::AbsoluteX, 4, Operation::BitTest));
    assert_eq!(decode(0x04), entry(Mnemonic::TSB, AddressingMode::ZeroPage, 5, Operation::TestAndSet));
    assert_eq!(decode(0x14), entry(Mnemonic::TRB, AddressingMode::ZeroPage, 5, Operation::TestAndReset));
    assert_eq!(decode(0x1C), entry(Mnemonic::TRB, AddressingMode::Absolute, 6, Operation::TestAndReset));
    assert_eq!(decode(0xCB), entry(Mnemonic::WAI, AddressingMode::Implied, 3, Operation::Wait));
    assert_eq!(decode(0xDB), entry(Mnemonic::STP, AddressingMode::Implied, 3, Operation::Stop));
    assert_eq!(decode(0x5A), entry(Mnemonic::PHY, AddressingMode::Implied, 3, Operation::Push(Register::Y)));
    assert_eq!(decode(0xFA), entry(Mnemonic::PLX, AddressingMode::Implied, 4, Operation::Pull(Register::X)));
    assert_eq!(decode(0x08), entry(Mnemonic::PHP, AddressingMode::Implied, 3, Operation::PushStatus));
    assert_eq!(decode(0x28), entry(Mnemonic::PLP, AddressingMode::Implied, 4, Operation::PullStatus));
    assert_eq!(decode(0x9A), entry(Mnemonic::TXS, AddressingMode::Implied, 2, Operation::TransferXToS));
    assert_eq!(decode(0xBA), entry(Mnemonic::TSX, AddressingMode::Implied, 2, Operation::TransferSToX));
    assert_eq!(decode(0xB8), entry(Mnemonic::CLV, AddressingMode::Implied, 2, Operation::ClearOverflow));
    assert_eq!(decode(0xC9), entry(Mnemonic::CMP, AddressingMode::Immediate, 2, Operation::Compare(Register::A)));
    assert_eq!(decode(0xE0), entry(Mnemonic::CPX, AddressingMode::Immediate, 2, Operation::Compare(Register::X)));
    assert_eq!(decode(0xCC), entry(Mnemonic::CPY, AddressingMode::Absolute, 4, Operation::Compare(Register::Y)));
}

#[test]
fn branches_test_one_flag_each() {
    let branches = [
        (0x10, Mnemonic::BPL, Condition::Negative, false),
        (0x30, Mnemonic::BMI, Condition::Negative, true),
        (0x50, Mnemonic::BVC, Condition::Overflow, false),
        (0x70, Mnemonic::BVS, Condition::Overflow, true),
        (0x90, Mnemonic::BCC, Condition::Carry, false),
        (0xB0, Mnemonic::BCS, Condition::Carry, true),
        (0xD0, Mnemonic::BNE, Condition::Zero, false),
        (0xF0, Mnemonic::BEQ, Condition::Zero, true),
    ];
    for (opcode, mnemonic, condition, wanted) in branches {
        assert_eq!(
            decode(opcode),
            entry(mnemonic, AddressingMode::Relative, 2, Operation::Branch(condition, wanted))
        );
    }
}

#[test]
fn bit_instructions_carry_their_bit() {
    for bit in 0..8u8 {
        assert_eq!(
            decode(0x07 + 0x10 * bit),
            entry(Mnemonic::RMB(bit), AddressingMode::ZeroPage, 5, Operation::ResetMemoryBit(bit))
        );
        assert_eq!(
            decode(0x87 + 0x10 * bit),
            entry(Mnemonic::SMB(bit), AddressingMode::ZeroPage, 5, Operation::SetMemoryBit(bit))
        );
        assert_eq!(
            decode(0x0F + 0x10 * bit),
            entry(
                Mnemonic::BBR(bit),
                AddressingMode::ZeroPageRelative,
                5,
                Operation::BranchOnBit(bit, false)
            )
        );
        assert_eq!(
            decode(0x8F + 0x10 * bit),
            entry(
                Mnemonic::BBS(bit),
                AddressingMode::ZeroPageRelative,
                5,
                Operation::BranchOnBit(bit, true)
            )
        );
    }
}

#[test]
fn operand_bytes_follow_the_mode() {
    assert_eq!(AddressingMode::Implied.operand_bytes(), 0);
    assert_eq!(AddressingMode::Accumulator.operand_bytes(), 0);
    assert_eq!(AddressingMode::Immediate.operand_bytes(), 1);
    assert_eq!(AddressingMode::ZeroPage.operand_bytes(), 1);
    assert_eq!(AddressingMode::ZeroPageX.operand_bytes(), 1);
    assert_eq!(AddressingMode::ZeroPageY.operand_bytes(), 1);
    assert_eq!(AddressingMode::IndexedIndirect.operand_bytes(), 1);
    assert_eq!(AddressingMode::IndirectIndexed.operand_bytes(), 1);
    assert_eq!(AddressingMode::ZeroPageIndirect.operand_bytes(), 1);
    assert_eq!(AddressingMode::Relative.operand_bytes(), 1);
    assert_eq!(AddressingMode::Absolute.operand_bytes(), 2);
    assert_eq!(AddressingMode::AbsoluteX.operand_bytes(), 2);
    assert_eq!(AddressingMode::AbsoluteY.operand_bytes(), 2);
    assert_eq!(AddressingMode::Indirect.operand_bytes(), 2);
    assert_eq!(AddressingMode::AbsoluteIndexedIndirect.operand_bytes(), 2);
    assert_eq!(AddressingMode::ZeroPageRelative.operand_bytes(), 2);
    assert_eq!(decode(0xAD).length(), 3);
    assert_eq!(decode(0xA5).length(), 2);
    assert_eq!(decode(0xAA).length(), 1);
}

#[test]
fn families_and_page_crossing() {
    assert_eq!(Operation::Load(Register::A).family(), Family::Transfer);
    assert_eq!(Operation::TransferXToS.family(), Family::Transfer);
    assert_eq!(Operation::Add.family(), Family::Arithmetic);
    assert_eq!(Operation::Compare(Register::Y).family(), Family::Compare);
    assert_eq!(Operation::TestAndReset.family(), Family::Logic);
    assert_eq!(Operation::RotateRight.family(), Family::Shift);
    assert_eq!(Operation::DecrementRegister(Register::X).family(), Family::IncrementDecrement);
    assert_eq!(Operation::Call.family(), Family::Jump);
    assert_eq!(Operation::BranchOnBit(3, true).family(), Family::Branch);
    assert_eq!(Operation::PullStatus.family(), Family::Stack);
    assert_eq!(Operation::ClearOverflow.family(), Family::Flag);
    assert_eq!(Operation::SetMemoryBit(7).family(), Family::MemoryBit);
    assert_eq!(Operation::Break.family(), Family::Interrupt);
    assert_eq!(Operation::Wait.family(), Family::Interrupt);
    assert_eq!(Operation::Nop.family(), Family::Nop);
    assert!(Operation::Load(Register::X).pays_for_page_crossing());
    assert!(Operation::Compare(Register::A).pays_for_page_crossing());
    assert!(Operation::ShiftLeft.pays_for_page_crossing());
    assert!(!Operation::Store(Register::A).pays_for_page_crossing());
    assert!(!Operation::Increment.pays_for_page_crossing());
    assert!(!Operation::Jump.pays_for_page_crossing());
}
