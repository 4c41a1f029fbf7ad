//! Arithmetic and logic on bytes.
//!
//! Every function here is pure. The contracts speak of the mathematical
//! integers; the executable code works in machine words.

use vstd::prelude::*;

verus! {

/// The value of a byte read as a two's-complement number.
pub open spec fn signed(byte: u8) -> int {
    if byte >= 128 {
        byte as int - 256
    } else {
        byte as int
    }
}

/// 1 for a set flag, 0 for a clear one.
pub open spec fn bit_of(flag: bool) -> int {
    if flag {
        1
    } else {
        0
    }
}

/// Whether a signed result lies outside the range of one signed byte.
pub open spec fn out_of_signed_range(value: int) -> bool {
    value < -128 || value > 127
}

/// Whether bit `index` of `byte` is set; bit 0 is the least significant.
/// No byte has a bit 8 or above.
pub open spec fn bit_set(byte: u8, index: u8) -> bool {
    match index {
        0 => byte % 2 == 1,
        1 => (byte / 2) % 2 == 1,
        2 => (byte / 4) % 2 == 1,
        3 => (byte / 8) % 2 == 1,
        4 => (byte / 16) % 2 == 1,
        5 => (byte / 32) % 2 == 1,
        6 => (byte / 64) % 2 == 1,
        7 => (byte / 128) % 2 == 1,
        _ => false,
    }
}

/// The byte whose only set bit is bit `index`, or zero where there is no such bit.
pub open spec fn bit_mask(index: u8) -> u8 {
    match index {
        0 => 1,
        1 => 2,
        2 => 4,
        3 => 8,
        4 => 16,
        5 => 32,
        6 => 64,
        7 => 128,
        _ => 0,
    }
}

/// `byte` with bit `index` cleared.
pub open spec fn with_bit_clear(byte: u8, index: u8) -> u8 {
    if bit_set(byte, index) {
        (byte - bit_mask(index)) as u8
    } else {
        byte
    }
}

/// `byte` with bit `index` set.
pub open spec fn with_bit_set(byte: u8, index: u8) -> u8 {
    if bit_set(byte, index) || index >= 8 {
        byte
    } else {
        (byte + bit_mask(index)) as u8
    }
}

/// The result of an addition or a subtraction in the accumulator.
#[derive(Clone, Copy, Debug, PartialEq, Eq, Structural)]
pub struct Arithmetic {
    /// The byte left in the accumulator.
    pub value: u8,
    /// Carry out of bit 7; after a subtraction, set when no borrow was needed.
    pub carry: bool,
    /// Set when the signed result does not fit in one byte.
    pub overflow: bool,
}

/// The result of a shift or a rotation by one bit.
#[derive(Clone, Copy, Debug, PartialEq, Eq, Structural)]
pub struct Shifted {
    /// The byte after the shift.
    pub value: u8,
    /// The bit that was shifted out.
    pub carry: bool,
}

/// The flags that a comparison sets.
#[derive(Clone, Copy, Debug, PartialEq, Eq, Structural)]
pub struct Comparison {
    /// Set when the register is at least the operand, as unsigned numbers.
    pub carry: bool,
    /// Set when the register equals the operand.
    pub zero: bool,
    /// Bit 7 of the difference, register minus operand, modulo 256.
    pub negative: bool,
}

/// Binary addition with carry: `a + operand + carry`.
pub open spec fn binary_sum(a: u8, operand: u8, carry: bool) -> Arithmetic {
    let total = a + operand + bit_of(carry);
    Arithmetic {
        value: (total % 256) as u8,
        carry: total >= 256,
        overflow: out_of_signed_range(signed(a) + signed(operand) + bit_of(carry)),
    }
}

/// Binary subtraction with borrow: `a - operand - (1 - carry)`.
pub open spec fn binary_difference(a: u8, operand: u8, carry: bool) -> Arithmetic {
    let total = a - operand - (1 - bit_of(carry));
    Arithmetic {
        value: (total % 256) as u8,
        carry: total >= 0,
        overflow: out_of_signed_range(signed(a) - signed(operand) - (1 - bit_of(carry))),
    }
}

/// Whether a byte is binary-coded decimal: a decimal digit in each nibble,
/// tens in the high one and units in the low one.
pub open spec fn is_bcd(byte: u8) -> bool {
    byte % 16 <= 9 && byte / 16 <= 9
}

/// The number from 0 to 99 that a binary-coded decimal byte stands for.
pub open spec fn bcd_value(byte: u8) -> int {
    (byte / 16) * 10 + byte % 16
}

/// The binary-coded decimal byte for a number from 0 to 99.
pub open spec fn bcd_byte(value: int) -> u8 {
    ((value / 10) * 16 + value % 10) as u8
}

/// Decimal-mode addition with carry, nibble by nibble as the processor does
/// it, so that operands which are not binary-coded decimal have a result too.
///
/// The low nibbles are added and corrected by 6 when they pass 9, then the
/// high nibbles, corrected by 0x60 when the whole passes 0x99. Overflow is
/// taken from the signed sum before the high correction.
pub open spec fn decimal_sum(a: u8, operand: u8, carry: bool) -> Arithmetic {
    let low = a % 16 + operand % 16 + bit_of(carry);
    let low_fixed = if low >= 10 {
        (low + 6) % 16 + 16
    } else {
        low
    };
    let high_a = ((a / 16) * 16) as u8;
    let high_operand = ((operand / 16) * 16) as u8;
    let total = high_a + high_operand + low_fixed;
    let fixed = if total >= 0xA0 {
        total + 0x60
    } else {
        total
    };
    Arithmetic {
        value: (fixed % 256) as u8,
        carry: fixed >= 256,
        overflow: out_of_signed_range(signed(high_a) + signed(high_operand) + low_fixed),
    }
}

/// Decimal-mode subtraction with borrow, as the processor does it.
///
/// The binary difference is corrected by 0x60 when it borrows and by 6 when
/// the low nibbles borrow. Carry and overflow are those of the binary
/// subtraction.
pub open spec fn decimal_difference(a: u8, operand: u8, carry: bool) -> Arithmetic {
    let borrow = 1 - bit_of(carry);
    let low = a % 16 - operand % 16 - borrow;
    let total = a - operand - borrow;
    let high_fixed = if total < 0 {
        total - 0x60
    } else {
        total
    };
    let fixed = if low < 0 {
        high_fixed - 6
    } else {
        high_fixed
    };
    Arithmetic {
        value: (fixed % 256) as u8,
        carry: total >= 0,
        overflow: out_of_signed_range(signed(a) - signed(operand) - borrow),
    }
}

/// The flags of `register - operand`, which is not stored.
pub open spec fn comparison(register: u8, operand: u8) -> Comparison {
    Comparison {
        carry: register >= operand,
        zero: register == operand,
        negative: (register - operand) % 256 >= 128,
    }
}

/// One bit to the left; bit 0 becomes zero.
pub open spec fn shifted_left(value: u8) -> Shifted {
    Shifted { value: ((value * 2) % 256) as u8, carry: value >= 128 }
}

/// One bit to the right; bit 7 becomes zero.
pub open spec fn shifted_right(value: u8) -> Shifted {
    Shifted { value: value / 2, carry: value % 2 == 1 }
}

/// One bit to the left through the carry: the old carry enters at bit 0.
pub open spec fn rotated_left(value: u8, carry: bool) -> Shifted {
    Shifted { value: ((value * 2) % 256 + bit_of(carry)) as u8, carry: value >= 128 }
}

/// One bit to the right through the carry: the old carry enters at bit 7.
pub open spec fn rotated_right(value: u8, carry: bool) -> Shifted {
    Shifted { value: (value / 2 + 128 * bit_of(carry)) as u8, carry: value % 2 == 1 }
}

/// `value + 1` modulo 256.
pub open spec fn incremented(value: u8) -> u8 {
    ((value + 1) % 256) as u8
}

/// `value - 1` modulo 256.
pub open spec fn decremented(value: u8) -> u8 {
    ((value + 255) % 256) as u8
}

/// Adds in binary. Overflow is found from the sign bits: it occurs exactly
/// when both operands have the sign that the result lacks.
pub fn add_binary(a: u8, operand: u8, carry: bool) -> (sum: Arithmetic)
    ensures
        sum == binary_sum(a, operand, carry),
{
    let carry_in: u16 = if carry {
        1
    } else {
        0
    };
    let total: u16 = a as u16 + operand as u16 + carry_in;
    let value: u8 = (total % 256) as u8;
    let overflow = ((a ^ value) & (operand ^ value) & 0x80) != 0;
    proof {
        assert((((a ^ value) & (operand ^ value) & 0x80) != 0) == ((a >= 128) == (operand >= 128)
            && (value >= 128) != (a >= 128))) by (bit_vector);
    }
    Arithmetic { value, carry: total >= 256, overflow }
}

/// Subtracts in binary, as the addition of the operand's complement.
pub fn subtract_binary(a: u8, operand: u8, carry: bool) -> (difference: Arithmetic)
    ensures
        difference == binary_difference(a, operand, carry),
{
    add_binary(a, 255 - operand, carry)
}

/// Adds in decimal mode.
pub fn add_decimal(a: u8, operand: u8, carry: bool) -> (sum: Arithmetic)
    ensures
        sum == decimal_sum(a, operand, carry),
{
    let carry_in: u16 = if carry {
        1
    } else {
        0
    };
    let mut low: u16 = (a & 0x0F) as u16 + (operand & 0x0F) as u16 + carry_in;
    let high_a: u8 = a & 0xF0;
    let high_operand: u8 = operand & 0xF0;
    proof {
        assert(a & 0x0F == a % 16 && a & 0xF0 == (a / 16) * 16) by (bit_vector);
        assert(operand & 0x0F == operand % 16 && operand & 0xF0 == (operand / 16) * 16)
            by (bit_vector);
    }
    if low >= 10 {
        low = (low + 6) % 16 + 16;
    }
    let mut total: u16 = high_a as u16 + high_operand as u16 + low;
    let signed_total: i16 = to_signed(high_a) + to_signed(high_operand) + low as i16;
    if total >= 0xA0 {
        total = total + 0x60;
    }
    Arithmetic {
        value: (total % 256) as u8,
        carry: total >= 256,
        overflow: signed_total < -128 || signed_total > 127,
    }
}

/// Subtracts in decimal mode.
pub fn subtract_decimal(a: u8, operand: u8, carry: bool) -> (difference: Arithmetic)
    ensures
        difference == decimal_difference(a, operand, carry),
{
    let borrow: i16 = if carry {
        0
    } else {
        1
    };
    let binary = subtract_binary(a, operand, carry);
    let low: i16 = (a % 16) as i16 - (operand % 16) as i16 - borrow;
    let mut total: i16 = a as i16 - operand as i16 - borrow;
    if total < 0 {
        total = total - 0x60;
    }
    if low < 0 {
        total = total - 6;
    }
    let value: u8 = if total >= 0 {
        total as u8
    } else if total >= -256 {
        (total + 256) as u8
    } else {
        (total + 512) as u8
    };
    Arithmetic { value, carry: binary.carry, overflow: binary.overflow }
}

/// The two's-complement value of a byte, in a wider word.
fn to_signed(byte: u8) -> (value: i16)
    ensures
        value == signed(byte),
{
    if byte >= 128 {
        byte as i16 - 256
    } else {
        byte as i16
    }
}

/// Compares a register with an operand.
pub fn compare(register: u8, operand: u8) -> (flags: Comparison)
    ensures
        flags == comparison(register, operand),
{
    let difference = register.wrapping_sub(operand);
    Comparison {
        carry: register >= operand,
        zero: register == operand,
        negative: difference >= 128,
    }
}

/// Shifts one bit to the left.
pub fn shift_left(value: u8) -> (shifted: Shifted)
    ensures
        shifted == shifted_left(value),
{
    proof {
        assert(value << 1 == (value * 2) % 256) by (bit_vector);
    }
    Shifted { value: value << 1, carry: value >= 128 }
}

/// Shifts one bit to the right.
pub fn shift_right(value: u8) -> (shifted: Shifted)
    ensures
        shifted == shifted_right(value),
{
    proof {
        assert(value >> 1 == value / 2 && (value & 1 != 0) == (value % 2 == 1)) by (bit_vector);
    }
    Shifted { value: value >> 1, carry: value & 1 != 0 }
}

/// Rotates one bit to the left through the carry.
pub fn rotate_left(value: u8, carry: bool) -> (rotated: Shifted)
    ensures
        rotated == rotated_left(value, carry),
{
    let low: u8 = if carry {
        1
    } else {
        0
    };
    proof {
        assert(low <= 1 ==> (value << 1) | low == (value * 2) % 256 + low) by (bit_vector);
    }
    Shifted { value: (value << 1) | low, carry: value >= 128 }
}

/// Rotates one bit to the right through the carry.
pub fn rotate_right(value: u8, carry: bool) -> (rotated: Shifted)
    ensures
        rotated == rotated_right(value, carry),
{
    let high: u8 = if carry {
        0x80
    } else {
        0
    };
    proof {
        assert((high == 0 || high == 0x80) ==> (value >> 1) | high == value / 2 + high)
            by (bit_vector);
        assert((value & 1 != 0) == (value % 2 == 1)) by (bit_vector);
    }
    Shifted { value: (value >> 1) | high, carry: value & 1 != 0 }
}

/// Adds one, wrapping from 255 to 0.
pub fn increment(value: u8) -> (next: u8)
    ensures
        next == incremented(value),
{
    value.wrapping_add(1)
}

/// Subtracts one, wrapping from 0 to 255.
pub fn decrement(value: u8) -> (previous: u8)
    ensures
        previous == decremented(value),
{
    value.wrapping_sub(1)
}

/// Whether bit `index` of `byte` is set.
pub fn test_bit(byte: u8, index: u8) -> (set: bool)
    ensures
        set == bit_set(byte, index),
{
    if index >= 8 {
        return false;
    }
    proof {
        assert(index < 8 ==> ((byte >> index) & 1 != 0) == ((byte / (1u8 << index)) % 2 == 1))
            by (bit_vector);
        assert(index < 8 ==> (1u8 << index) == (if index == 0 {
            1u8
        } else if index == 1 {
            2u8
        } else if index == 2 {
            4u8
        } else if index == 3 {
            8u8
        } else if index == 4 {
            16u8
        } else if index == 5 {
            32u8
        } else if index == 6 {
            64u8
        } else {
            128u8
        })) by (bit_vector);
    }
    (byte >> index) & 1 != 0
}

/// Clears bit `index` of `byte`.
pub fn clear_bit(byte: u8, index: u8) -> (cleared: u8)
    ensures
        cleared == with_bit_clear(byte, index),
{
    if test_bit(byte, index) {
        byte - mask(index)
    } else {
        byte
    }
}

/// Sets bit `index` of `byte`.
pub fn set_bit(byte: u8, index: u8) -> (raised: u8)
    ensures
        raised == with_bit_set(byte, index),
{
    if index >= 8 || test_bit(byte, index) {
        byte
    } else {
        byte + mask(index)
    }
}

/// The byte with only bit `index` set.
fn mask(index: u8) -> (m: u8)
    ensures
        m == bit_mask(index),
{
    match index {
        0 => 1,
        1 => 2,
        2 => 4,
        3 => 8,
        4 => 16,
        5 => 32,
        6 => 64,
        7 => 128,
        _ => 0,
    }
}

/// The digits of a decimal-mode sum of binary-coded decimal operands.
proof fn lemma_decimal_sum_digits(a: u8, operand: u8, carry: bool)
    by (bit_vector)
    requires
        is_bcd(a),
        is_bcd(operand),
    ensures
        is_bcd(decimal_sum(a, operand, carry).value),
        bcd_value(decimal_sum(a, operand, carry).value) == (bcd_value(a) + bcd_value(operand)
            + bit_of(carry)) % 100,
        decimal_sum(a, operand, carry).carry == (bcd_value(a) + bcd_value(operand) + bit_of(carry)
            >= 100),
{
}

/// The digits of a decimal-mode difference of binary-coded decimal operands.
proof fn lemma_decimal_difference_digits(a: u8, operand: u8, carry: bool)
    by (bit_vector)
    requires
        is_bcd(a),
        is_bcd(operand),
    ensures
        is_bcd(decimal_difference(a, operand, carry).value),
        bcd_value(decimal_difference(a, operand, carry).value) == (bcd_value(a) - bcd_value(
            operand,
        ) - (1 - bit_of(carry))) % 100,
        decimal_difference(a, operand, carry).carry == (bcd_value(a) - bcd_value(operand) - (1
            - bit_of(carry)) >= 0),
{
}

/// A binary-coded decimal byte is the byte of the number that it stands for.
pub proof fn lemma_bcd_round_trip(byte: u8)
    requires
        is_bcd(byte),
    ensures
        0 <= bcd_value(byte) <= 99,
        bcd_byte(bcd_value(byte)) == byte,
{
}

/// On binary-coded decimal operands, decimal-mode addition is addition of
/// the numbers that they stand for: the result is the binary-coded decimal
/// byte of the sum modulo 100, and Carry tells whether the sum reached 100.
pub proof fn lemma_decimal_sum_adds(a: u8, operand: u8, carry: bool)
    requires
        is_bcd(a),
        is_bcd(operand),
    ensures
        decimal_sum(a, operand, carry).value == bcd_byte(
            (bcd_value(a) + bcd_value(operand) + bit_of(carry)) % 100,
        ),
        decimal_sum(a, operand, carry).carry == (bcd_value(a) + bcd_value(operand) + bit_of(carry)
            >= 100),
        is_bcd(decimal_sum(a, operand, carry).value),
{
    lemma_decimal_sum_digits(a, operand, carry);
    lemma_bcd_round_trip(decimal_sum(a, operand, carry).value);
}

/// On binary-coded decimal operands, decimal-mode subtraction is subtraction
/// of the numbers that they stand for: the result is the binary-coded
/// decimal byte of the difference modulo 100, and Carry tells that no borrow
/// was needed.
pub proof fn lemma_decimal_difference_subtracts(a: u8, operand: u8, carry: bool)
    requires
        is_bcd(a),
        is_bcd(operand),
    ensures
        decimal_difference(a, operand, carry).value == bcd_byte(
            (bcd_value(a) - bcd_value(operand) - (1 - bit_of(carry))) % 100,
        ),
        decimal_difference(a, operand, carry).carry == (bcd_value(a) - bcd_value(operand) - (1
            - bit_of(carry)) >= 0),
        is_bcd(decimal_difference(a, operand, carry).value),
{
    lemma_decimal_difference_digits(a, operand, carry);
    lemma_bcd_round_trip(decimal_difference(a, operand, carry).value);
}

/// A comparison is a binary subtraction without borrow whose result is not
/// kept: its flags are those of the difference.
pub proof fn lemma_comparison_is_subtraction(register: u8, operand: u8)
    ensures
        comparison(register, operand).carry == binary_difference(register, operand, true).carry,
        comparison(register, operand).zero == (binary_difference(register, operand, true).value
            == 0),
        comparison(register, operand).negative == (binary_difference(
            register,
            operand,
            true,
        ).value >= 128),
{
}

/// A rotation to the right undoes a rotation to the left, and the other way
/// round: together the byte and the carry are nine bits that only move.
pub proof fn lemma_rotations_are_inverse(value: u8, carry: bool)
    ensures
        rotated_right(rotated_left(value, carry).value, rotated_left(value, carry).carry) == (
        Shifted { value, carry }),
        rotated_left(rotated_right(value, carry).value, rotated_right(value, carry).carry) == (
        Shifted { value, carry }),
{
}

/// An increment undoes a decrement, and the other way round.
pub proof fn lemma_increment_and_decrement_are_inverse(value: u8)
    ensures
        decremented(incremented(value)) == value,
        incremented(decremented(value)) == value,
{
}

} // verus!
