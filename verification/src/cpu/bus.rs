//! The address space: 65536 bytes behind a read/write interface.

use vstd::prelude::*;

verus! {

/// Number of bytes that a 16-bit address can reach.
pub const ADDRESS_SPACE: usize = 65536;

/// A backing store for the processor's address space.
///
/// The processor reaches memory only through `read` and `write`, so another
/// store can take the place of [`RAM`] without any change to the processor.
pub trait Bus {
    /// The byte held at each of the 65536 addresses, in address order.
    spec fn contents(&self) -> Seq<u8>;

    /// Every store spans the whole address space.
    proof fn contents_span(&self)
        ensures
            self.contents().len() == ADDRESS_SPACE,
    ;

    /// The byte at `address`.
    fn read(&self, address: u16) -> (value: u8)
        ensures
            value == self.contents()[address as int],
    ;

    /// Stores `value` at `address` and leaves every other byte as it was.
    fn write(&mut self, address: u16, value: u8)
        ensures
            final(self).contents() == old(self).contents().update(address as int, value),
    ;
}

/// The word with the given low and high bytes.
pub open spec fn word(low: u8, high: u8) -> u16 {
    (low + 256 * high) as u16
}

/// The low byte of a word.
pub open spec fn low_byte(value: u16) -> u8 {
    (value % 256) as u8
}

/// The high byte of a word.
pub open spec fn high_byte(value: u16) -> u8 {
    (value / 256) as u8
}

/// `address + offset` reduced modulo 65536, for any integer offset.
pub open spec fn wrapped(address: int) -> u16 {
    (address % 65536) as u16
}

/// An integer reduced modulo 256.
pub open spec fn wrapped_byte(value: int) -> u8 {
    (value % 256) as u8
}

/// The little-endian word at `address`: low byte there, high byte at the
/// next address, which after 0xFFFF is 0.
pub open spec fn word_at(memory: Seq<u8>, address: u16) -> u16 {
    word(memory[address as int], memory[wrapped(address + 1) as int])
}

/// The little-endian word at `pointer` within page zero: the high byte of the
/// word at 0xFF is at 0x00.
pub open spec fn zero_page_word_at(memory: Seq<u8>, pointer: u8) -> u16 {
    word(memory[pointer as int], memory[wrapped_byte(pointer + 1) as int])
}

/// Memory after `bytes` were copied to `base` and the addresses after it.
pub open spec fn loaded(memory: Seq<u8>, bytes: Seq<u8>, base: int) -> Seq<u8> {
    Seq::new(
        memory.len(),
        |i: int|
            if base <= i < base + bytes.len() {
                bytes[i - base]
            } else {
                memory[i]
            },
    )
}

/// Why a program was not loaded: it would have run past the last address.
#[derive(Clone, Copy, Debug, PartialEq, Eq, Structural)]
pub struct LoadError {
    /// The address that the first byte was meant for.
    pub base_address: u16,
    /// The number of bytes that were to be loaded.
    pub length: usize,
}

/// Joins two bytes into a word.
pub fn make_word(low: u8, high: u8) -> (value: u16)
    ensures
        value == word(low, high),
{
    high as u16 * 256 + low as u16
}

/// Splits a word into its low and high bytes.
pub fn split_word(value: u16) -> (bytes: (u8, u8))
    ensures
        bytes.0 == low_byte(value),
        bytes.1 == high_byte(value),
{
    ((value % 256) as u8, (value / 256) as u8)
}

/// The address `by` bytes after `address`, wrapping after 0xFFFF.
pub fn offset(address: u16, by: u16) -> (moved: u16)
    ensures
        moved == wrapped(address + by),
{
    address.wrapping_add(by)
}

/// The page-zero address `by` bytes after `pointer`, wrapping after 0xFF.
pub fn zero_page_offset(pointer: u8, by: u8) -> (moved: u8)
    ensures
        moved == wrapped_byte(pointer + by),
{
    pointer.wrapping_add(by)
}

/// Reads the little-endian word at `address`.
pub fn read_word<B: Bus>(bus: &B, address: u16) -> (value: u16)
    ensures
        value == word_at(bus.contents(), address),
{
    let low = bus.read(address);
    let high = bus.read(offset(address, 1));
    make_word(low, high)
}

/// Reads the little-endian word at `pointer` within page zero.
pub fn read_zero_page_word<B: Bus>(bus: &B, pointer: u8) -> (value: u16)
    ensures
        value == zero_page_word_at(bus.contents(), pointer),
{
    let low = bus.read(pointer as u16);
    let high = bus.read(zero_page_offset(pointer, 1) as u16);
    make_word(low, high)
}

/// Copies `bytes` into memory from `base_address` on.
///
/// The range is checked before anything is written: a program that would run
/// past the last address is refused and memory stays as it was.
pub fn load<B: Bus>(bus: &mut B, bytes: &[u8], base_address: u16) -> (result: Result<
    (),
    LoadError,
>)
    ensures
        result is Ok <==> base_address + bytes@.len() <= ADDRESS_SPACE,
        result is Ok ==> final(bus).contents() == loaded(
            old(bus).contents(),
            bytes@,
            base_address as int,
        ),
        result matches Err(e) ==> final(bus).contents() == old(bus).contents() && e == (
        LoadError { base_address, length: bytes.len() }),
{
    if bytes.len() > ADDRESS_SPACE - base_address as usize {
        return Err(LoadError { base_address, length: bytes.len() });
    }
    let ghost before = bus.contents();
    proof {
        bus.contents_span();
        assert(before =~= loaded(before, bytes@.take(0), base_address as int));
    }
    let mut i: usize = 0;
    while i < bytes.len()
        invariant
            i <= bytes.len(),
            base_address + bytes@.len() <= ADDRESS_SPACE,
            before.len() == ADDRESS_SPACE,
            bus.contents() == loaded(before, bytes@.take(i as int), base_address as int),
        decreases bytes.len() - i,
    {
        let ghost current = bus.contents();
        bus.write((base_address as usize + i) as u16, bytes[i]);
        proof {
            assert(current.update(base_address + i, bytes@[i as int]) =~= loaded(
                before,
                bytes@.take(i + 1),
                base_address as int,
            ));
        }
        i = i + 1;
    }
    proof {
        assert(bytes@.take(bytes@.len() as int) =~= bytes@);
    }
    Ok(())
}

/// A word is its low byte with its high byte eight bits to the left.
pub proof fn lemma_word_joins_bytes(low: u8, high: u8)
    ensures
        word(low, high) == (low as u16) | ((high as u16) << 8),
        low_byte(word(low, high)) == low,
        high_byte(word(low, high)) == high,
{
    assert((low as u16) | ((high as u16) << 8) == low as u16 + 256 * (high as u16)) by (bit_vector);
}

} // verus!
