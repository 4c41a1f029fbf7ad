use w65c02s::cpu::bus::{
    load, make_word, offset, read_word, read_zero_page_word, split_word, zero_page_offset, Bus,
    LoadError, ADDRESS_SPACE,
};
use w65c02s::cpu::RAM;

#[test]
fn ram_starts_blank() {
    let ram = RAM::new();
    assert_eq!(ADDRESS_SPACE, 65536);
    assert_eq!(ram.address.len(), 65536);
    for address in 0..=0xFFFFu16 {
        assert_eq!(ram.read(address), 0);
    }
}

#[test]
fn write_changes_one_byte() {
    let mut ram = RAM::new();
    ram.write(0x1234, 0xAB);
    ram.write(0xFFFF, 0xCD);
    ram.write(0x0000, 0xEF);
    for address in 0..=0xFFFFu16 {
        let expected = match address {
            0x1234 => 0xAB,
            0xFFFF => 0xCD,
            0x0000 => 0xEF,
            _ => 0,
        };
        assert_eq!(ram.read(address), expected);
    }
}

#[test]
fn load_copies_the_bytes() {
    let mut ram = RAM::new();
    ram.write(0x7FFF, 0x11);
    ram.write(0x8003, 0x22);
    assert_eq!(load(&mut ram, &[1, 2, 3], 0x8000), Ok(()));
    assert_eq!(ram.read(0x7FFF), 0x11);
    assert_eq!(ram.read(0x8000), 1);
    assert_eq!(ram.read(0x8001), 2);
    assert_eq!(ram.read(0x8002), 3);
    assert_eq!(ram.read(0x8003), 0x22);
}

#[test]
fn load_reaches_the_last_address() {
    let mut ram = RAM::new();
    assert_eq!(load(&mut ram, &[0xAA], 0xFFFF), Ok(()));
    assert_eq!(ram.read(0xFFFF), 0xAA);
    assert_eq!(load(&mut ram, &[1, 2, 3, 4], 0xFFFC), Ok(()));
    assert_eq!(ram.read(0xFFFF), 4);
    assert_eq!(load(&mut ram, &[], 0xFFFF), Ok(()));
    assert_eq!(ram.read(0xFFFF), 4);
}

#[test]
fn load_past_the_end_is_refused_and_writes_nothing() {
    let mut ram = RAM::new();
    ram.write(0xFFFE, 0x55);
    ram.write(0xFFFF, 0x66);
    ram.write(0x0000, 0x77);
    assert_eq!(
        load(&mut ram, &[1, 2, 3], 0xFFFE),
        Err(LoadError { base_address: 0xFFFE, length: 3 })
    );
    assert_eq!(ram.read(0xFFFE), 0x55);
    assert_eq!(ram.read(0xFFFF), 0x66);
    assert_eq!(ram.read(0x0000), 0x77);
    assert_eq!(
        load(&mut ram, &[9, 9], 0xFFFF),
        Err(LoadError { base_address: 0xFFFF, length: 2 })
    );
    assert_eq!(ram.read(0xFFFF), 0x66);
}

#[test]
fn load_of_the_whole_address_space() {
    let mut ram = RAM::new();
    let image = vec![7u8; 65536];
    assert_eq!(load(&mut ram, &image, 0), Ok(()));
    assert_eq!(ram.read(0), 7);
    assert_eq!(ram.read(0xFFFF), 7);
    let too_long = vec![8u8; 65537];
    assert_eq!(load(&mut ram, &too_long, 0), Err(LoadError { base_address: 0, length: 65537 }));
    assert_eq!(ram.read(0), 7);
    assert_eq!(load(&mut ram, &image, 1), Err(LoadError { base_address: 1, length: 65536 }));
    assert_eq!(ram.read(1), 7);
}

#[test]
fn words_are_little_endian() {
    assert_eq!(make_word(0x34, 0x12), 0x1234);
    assert_eq!(make_word(0xFF, 0xFF), 0xFFFF);
    assert_eq!(split_word(0x1234), (0x34, 0x12));
    assert_eq!(split_word(0x00FF), (0xFF, 0x00));
    let mut ram = RAM::new();
    ram.write(0x2000, 0xCD);
    ram.write(0x2001, 0xAB);
    assert_eq!(read_word(&ram, 0x2000), 0xABCD);
}

#[test]
fn word_reads_wrap() {
    let mut ram = RAM::new();
    ram.write(0xFFFF, 0x34);
    ram.write(0x0000, 0x12);
    ram.write(0x00FF, 0x78);
    ram.write(0x0100, 0x56);
    assert_eq!(read_word(&ram, 0xFFFF), 0x1234);
    assert_eq!(read_word(&ram, 0x00FF), 0x5678);
    assert_eq!(read_zero_page_word(&ram, 0xFF), 0x1278);
    assert_eq!(offset(0xFFFF, 1), 0x0000);
    assert_eq!(offset(0xFFF0, 0x20), 0x0010);
    assert_eq!(offset(0x1000, 0x20), 0x1020);
    assert_eq!(zero_page_offset(0xFF, 1), 0x00);
    assert_eq!(zero_page_offset(0xF0, 0x20), 0x10);
    assert_eq!(zero_page_offset(0x10, 0x20), 0x30);
}
