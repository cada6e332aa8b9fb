//! The arithmetic and logic unit: what each operation makes of its operands
//! and which flags it leaves behind. Results are stated as integer
//! arithmetic; the code computes them with the shifts and masks of the
//! hardware.

use vstd::prelude::*;
use crate::registers::{wrap16, wrap8, Flags};

verus! {

/// One for a set carry, zero for a clear one.
pub open spec fn bit_value(b: bool) -> int {
    if b {
        1
    } else {
        0
    }
}

/// `a + b + carry` in eight bits. Half carry: the low nibbles overflow into
/// bit 4. Carry: the sum overflows eight bits.
pub open spec fn sum8(a: u8, b: u8, carry: bool) -> (u8, Flags) {
    let total = a + b + bit_value(carry);
    (
        wrap8(total),
        Flags {
            z: total % 0x100 == 0,
            n: false,
            h: a % 0x10 + b % 0x10 + bit_value(carry) >= 0x10,
            c: total >= 0x100,
        },
    )
}

/// `a - b - borrow` in eight bits. Half carry: the low nibbles borrow from
/// bit 4. Carry: the difference is negative.
pub open spec fn difference8(a: u8, b: u8, borrow: bool) -> (u8, Flags) {
    let total = a - b - bit_value(borrow);
    (
        wrap8(total),
        Flags {
            z: total % 0x100 == 0,
            n: true,
            h: a % 0x10 - b % 0x10 - bit_value(borrow) < 0,
            c: total < 0,
        },
    )
}

/// Bitwise and; half carry comes out set.
pub open spec fn conjunction8(a: u8, b: u8) -> (u8, Flags) {
    (a & b, Flags { z: a & b == 0, n: false, h: true, c: false })
}

/// Bitwise exclusive or.
pub open spec fn exclusive8(a: u8, b: u8) -> (u8, Flags) {
    (a ^ b, Flags { z: a ^ b == 0, n: false, h: false, c: false })
}

/// Bitwise or.
pub open spec fn disjunction8(a: u8, b: u8) -> (u8, Flags) {
    (a | b, Flags { z: a | b == 0, n: false, h: false, c: false })
}

/// `v + 1` in eight bits; carry stays as it was.
pub open spec fn incremented8(v: u8, old: Flags) -> (u8, Flags) {
    (wrap8(v + 1), Flags { z: v == 0xFF, n: false, h: v % 0x10 == 0x0F, c: old.c })
}

/// `v - 1` in eight bits; carry stays as it was.
pub open spec fn decremented8(v: u8, old: Flags) -> (u8, Flags) {
    (wrap8(v - 1), Flags { z: v == 1, n: true, h: v % 0x10 == 0, c: old.c })
}

/// `a + b` in sixteen bits. Half carry: overflow out of bit 11. Carry:
/// overflow out of bit 15. Zero stays as it was.
pub open spec fn sum16(a: u16, b: u16, old: Flags) -> (u16, Flags) {
    (
        wrap16(a + b),
        Flags { z: old.z, n: false, h: a % 0x1000 + b % 0x1000 >= 0x1000, c: a + b >= 0x10000 },
    )
}

/// `base` plus a signed displacement in sixteen bits. Half carry and carry
/// are those of adding the displacement's byte to the low byte of `base`.
pub open spec fn displaced16(base: u16, offset: i8) -> (u16, Flags) {
    let byte = wrap8(offset as int);
    (
        wrap16(base + offset),
        Flags {
            z: false,
            n: false,
            h: base % 0x10 + byte % 0x10 >= 0x10,
            c: base % 0x100 + byte >= 0x100,
        },
    )
}

/// Rotate left: bit 7 moves to bit 0 and to carry.
pub open spec fn rotated_left(v: u8) -> (u8, Flags) {
    let value = wrap8(v * 2 + v / 0x80);
    (value, Flags { z: value == 0, n: false, h: false, c: v >= 0x80 })
}

/// Rotate right: bit 0 moves to bit 7 and to carry.
pub open spec fn rotated_right(v: u8) -> (u8, Flags) {
    let value = wrap8(v / 2 + (v % 2) * 0x80);
    (value, Flags { z: value == 0, n: false, h: false, c: v % 2 == 1 })
}

/// Rotate left through carry: carry moves to bit 0, bit 7 to carry.
pub open spec fn rotated_left_through(v: u8, carry: bool) -> (u8, Flags) {
    let value = wrap8(v * 2 + bit_value(carry));
    (value, Flags { z: value == 0, n: false, h: false, c: v >= 0x80 })
}

/// Rotate right through carry: carry moves to bit 7, bit 0 to carry.
pub open spec fn rotated_right_through(v: u8, carry: bool) -> (u8, Flags) {
    let value = wrap8(v / 2 + bit_value(carry) * 0x80);
    (value, Flags { z: value == 0, n: false, h: false, c: v % 2 == 1 })
}

/// Shift left: bit 7 moves to carry, bit 0 becomes zero.
pub open spec fn shifted_left(v: u8) -> (u8, Flags) {
    let value = wrap8(v * 2);
    (value, Flags { z: value == 0, n: false, h: false, c: v >= 0x80 })
}

/// Arithmetic shift right: bit 0 moves to carry, bit 7 stays.
pub open spec fn shifted_right_signed(v: u8) -> (u8, Flags) {
    let value = wrap8(v / 2 + (v / 0x80) * 0x80);
    (value, Flags { z: value == 0, n: false, h: false, c: v % 2 == 1 })
}

/// Logical shift right: bit 0 moves to carry, bit 7 becomes zero.
pub open spec fn shifted_right(v: u8) -> (u8, Flags) {
    let value = v / 2;
    (value, Flags { z: value == 0, n: false, h: false, c: v % 2 == 1 })
}

/// The two nibbles exchanged.
pub open spec fn swapped(v: u8) -> (u8, Flags) {
    let value = wrap8((v % 0x10) * 0x10 + v / 0x10);
    (value, Flags { z: value == 0, n: false, h: false, c: false })
}

/// Whether bit `index` of `v` is set.
pub open spec fn bit_is_set(v: u8, index: u8) -> bool {
    v & (1u8 << index) != 0
}

/// The flags after a test of bit `index`: zero is set when the bit is clear,
/// carry stays as it was.
pub open spec fn bit_tested(v: u8, index: u8, old: Flags) -> Flags {
    Flags { z: !bit_is_set(v, index), n: false, h: true, c: old.c }
}

/// `v` with bit `index` cleared.
pub open spec fn bit_cleared(v: u8, index: u8) -> u8 {
    v & !(1u8 << index)
}

/// `v` with bit `index` set.
pub open spec fn bit_raised(v: u8, index: u8) -> u8 {
    v | (1u8 << index)
}

/// The accumulator corrected to packed decimal after an addition or a
/// subtraction of packed decimals. After an addition, 0x60 is added when the
/// value is above 0x99 or carry is set, and 6 when the low nibble is above 9
/// or half carry is set. After a subtraction, 0x60 is subtracted when carry
/// is set and 6 when half carry is set. Carry comes out set when 0x60 was
/// applied.
pub open spec fn decimal_adjusted(a: u8, old: Flags) -> (u8, Flags) {
    let high = old.c || (!old.n && a > 0x99);
    let low = old.h || (!old.n && a % 0x10 > 9);
    let fix = (if high {
        0x60int
    } else {
        0
    }) + (if low {
        6int
    } else {
        0
    });
    let value = if old.n {
        wrap8(a - fix)
    } else {
        wrap8(a + fix)
    };
    (value, Flags { z: value == 0, n: old.n, h: false, c: high })
}

/// Every bit of the accumulator inverted; zero and carry stay as they were.
pub open spec fn complemented(a: u8, old: Flags) -> (u8, Flags) {
    ((0xFF - a) as u8, Flags { z: old.z, n: true, h: true, c: old.c })
}

/// Carry set; zero stays as it was.
pub open spec fn carry_set(old: Flags) -> Flags {
    Flags { z: old.z, n: false, h: false, c: true }
}

/// Carry inverted; zero stays as it was.
pub open spec fn carry_flipped(old: Flags) -> Flags {
    Flags { z: old.z, n: false, h: false, c: !old.c }
}

/// Masking a byte is taking a remainder, and inverting it is subtracting it
/// from 255.
proof fn lemma_byte_bits(a: u8)
    by (bit_vector)
    ensures
        a & 0x0Fu8 == a % 0x10u8,
        !a == (0xFFu8 - a) as u8,
{
}

/// Masking a word with a run of low bits is taking a remainder.
proof fn lemma_word_bits(t: u16)
    by (bit_vector)
    ensures
        t & 0xFFu16 == t % 0x100u16,
        t & 0x0FFFu16 == t % 0x1000u16,
        t & 0x0Fu16 == t % 0x10u16,
{
}

/// The rotates and shifts of a byte, written with shifts and masks, are the
/// doublings and halvings that state them.
proof fn lemma_shift_bits(v: u8, c: u8)
    by (bit_vector)
    requires
        c <= 1,
    ensures
        (v << 1) | (v >> 7) == ((v * 2 + v / 0x80) % 0x100) as u8,
        (v >> 1) | (v << 7) == ((v / 2 + (v % 2) * 0x80) % 0x100) as u8,
        (v << 1) | c == ((v * 2 + c) % 0x100) as u8,
        (v >> 1) | (c << 7) == ((v / 2 + c * 0x80) % 0x100) as u8,
        v << 1 == ((v * 2) % 0x100) as u8,
        (v >> 1) | (v & 0x80u8) == ((v / 2 + (v / 0x80) * 0x80) % 0x100) as u8,
        v >> 1 == v / 2,
        (v << 4) | (v >> 4) == (((v % 0x10) * 0x10 + v / 0x10) % 0x100) as u8,
        (v & 0x80u8 != 0u8) == (v >= 0x80u8),
        (v & 0x01u8 != 0u8) == (v % 2 == 1),
{
}

/// Adds with carry in.
pub fn add8(a: u8, b: u8, carry: bool) -> (r: (u8, Flags))
    ensures
        r == sum8(a, b, carry),
{
    let c: u8 = if carry {
        1
    } else {
        0
    };
    let total: u16 = a as u16 + b as u16 + c as u16;
    proof {
        lemma_byte_bits(a);
        lemma_byte_bits(b);
        lemma_word_bits(total);
    }
    let value = (total & 0xFF) as u8;
    let h = (a & 0x0F) + (b & 0x0F) + c > 0x0F;
    (value, Flags { z: value == 0, n: false, h, c: total > 0xFF })
}

/// Subtracts with borrow in.
pub fn sub8(a: u8, b: u8, borrow: bool) -> (r: (u8, Flags))
    ensures
        r == difference8(a, b, borrow),
{
    let c: u8 = if borrow {
        1
    } else {
        0
    };
    proof {
        lemma_byte_bits(a);
        lemma_byte_bits(b);
    }
    let value = a.wrapping_sub(b).wrapping_sub(c);
    let h = (a & 0x0F) < (b & 0x0F) + c;
    let carry = (a as u16) < (b as u16) + (c as u16);
    (value, Flags { z: value == 0, n: true, h, c: carry })
}

/// Bitwise and.
pub fn and8(a: u8, b: u8) -> (r: (u8, Flags))
    ensures
        r == conjunction8(a, b),
{
    let value = a & b;
    (value, Flags { z: value == 0, n: false, h: true, c: false })
}

/// Bitwise exclusive or.
pub fn xor8(a: u8, b: u8) -> (r: (u8, Flags))
    ensures
        r == exclusive8(a, b),
{
    let value = a ^ b;
    (value, Flags { z: value == 0, n: false, h: false, c: false })
}

/// Bitwise or.
pub fn or8(a: u8, b: u8) -> (r: (u8, Flags))
    ensures
        r == disjunction8(a, b),
{
    let value = a | b;
    (value, Flags { z: value == 0, n: false, h: false, c: false })
}

/// Increments a byte; carry stays as it was.
pub fn inc8(v: u8, old: Flags) -> (r: (u8, Flags))
    ensures
        r == incremented8(v, old),
{
    proof {
        lemma_byte_bits(v);
    }
    let value = v.wrapping_add(1);
    (value, Flags { z: value == 0, n: false, h: (v & 0x0F) == 0x0F, c: old.c })
}

/// Decrements a byte; carry stays as it was.
pub fn dec8(v: u8, old: Flags) -> (r: (u8, Flags))
    ensures
        r == decremented8(v, old),
{
    proof {
        lemma_byte_bits(v);
    }
    let value = v.wrapping_sub(1);
    (value, Flags { z: value == 0, n: true, h: (v & 0x0F) == 0, c: old.c })
}

/// Adds two sixteen-bit values; zero stays as it was.
pub fn add16(a: u16, b: u16, old: Flags) -> (r: (u16, Flags))
    ensures
        r == sum16(a, b, old),
{
    proof {
        lemma_word_bits(a);
        lemma_word_bits(b);
    }
    let total: u32 = a as u32 + b as u32;
    let h = (a & 0x0FFF) + (b & 0x0FFF) > 0x0FFF;
    (a.wrapping_add(b), Flags { z: old.z, n: false, h, c: total > 0xFFFF })
}

/// Adds a signed displacement to a sixteen-bit value.
pub fn add_offset(base: u16, offset: i8) -> (r: (u16, Flags))
    ensures
        r == displaced16(base, offset),
{
    let byte = offset as u8;
    assert(byte as int == (if offset < 0 { offset + 0x100 } else { offset as int })) by (bit_vector)
        requires
            byte == offset as u8,
    ;
    proof {
        lemma_byte_bits(byte);
        lemma_word_bits(base);
    }
    let h = (base & 0x0F) + ((byte & 0x0F) as u16) > 0x0F;
    let c = (base & 0xFF) + (byte as u16) > 0xFF;
    (base.wrapping_add_signed(offset as i16), Flags { z: false, n: false, h, c })
}

/// Rotates left.
pub fn rlc(v: u8) -> (r: (u8, Flags))
    ensures
        r == rotated_left(v),
{
    proof {
        lemma_shift_bits(v, 0);
    }
    let value = (v << 1) | (v >> 7);
    (value, Flags { z: value == 0, n: false, h: false, c: v & 0x80 != 0 })
}

/// Rotates right.
pub fn rrc(v: u8) -> (r: (u8, Flags))
    ensures
        r == rotated_right(v),
{
    proof {
        lemma_shift_bits(v, 0);
    }
    let value = (v >> 1) | (v << 7);
    (value, Flags { z: value == 0, n: false, h: false, c: v & 0x01 != 0 })
}

/// Rotates left through carry.
pub fn rl(v: u8, carry: bool) -> (r: (u8, Flags))
    ensures
        r == rotated_left_through(v, carry),
{
    let c: u8 = if carry {
        1
    } else {
        0
    };
    proof {
        lemma_shift_bits(v, c);
    }
    let value = (v << 1) | c;
    (value, Flags { z: value == 0, n: false, h: false, c: v & 0x80 != 0 })
}

/// Rotates right through carry.
pub fn rr(v: u8, carry: bool) -> (r: (u8, Flags))
    ensures
        r == rotated_right_through(v, carry),
{
    let c: u8 = if carry {
        1
    } else {
        0
    };
    proof {
        lemma_shift_bits(v, c);
    }
    let value = (v >> 1) | (c << 7);
    (value, Flags { z: value == 0, n: false, h: false, c: v & 0x01 != 0 })
}

/// Shifts left.
pub fn sla(v: u8) -> (r: (u8, Flags))
    ensures
        r == shifted_left(v),
{
    proof {
        lemma_shift_bits(v, 0);
    }
    let value = v << 1;
    (value, Flags { z: value == 0, n: false, h: false, c: v & 0x80 != 0 })
}

/// Shifts right and keeps the sign bit.
pub fn sra(v: u8) -> (r: (u8, Flags))
    ensures
        r == shifted_right_signed(v),
{
    proof {
        lemma_shift_bits(v, 0);
    }
    let value = (v >> 1) | (v & 0x80);
    (value, Flags { z: value == 0, n: false, h: false, c: v & 0x01 != 0 })
}

/// Shifts right.
pub fn srl(v: u8) -> (r: (u8, Flags))
    ensures
        r == shifted_right(v),
{
    proof {
        lemma_shift_bits(v, 0);
    }
    let value = v >> 1;
    (value, Flags { z: value == 0, n: false, h: false, c: v & 0x01 != 0 })
}

/// Exchanges the two nibbles.
pub fn swap(v: u8) -> (r: (u8, Flags))
    ensures
        r == swapped(v),
{
    proof {
        lemma_shift_bits(v, 0);
    }
    let value = (v << 4) | (v >> 4);
    (value, Flags { z: value == 0, n: false, h: false, c: false })
}

/// Tests bit `index`; carry stays as it was.
pub fn test_bit(v: u8, index: u8, old: Flags) -> (flags: Flags)
    requires
        index < 8,
    ensures
        flags == bit_tested(v, index, old),
{
    Flags { z: v & (1u8 << index) == 0, n: false, h: true, c: old.c }
}

/// Clears bit `index`.
pub fn reset_bit(v: u8, index: u8) -> (value: u8)
    requires
        index < 8,
    ensures
        value == bit_cleared(v, index),
{
    v & !(1u8 << index)
}

/// Sets bit `index`.
pub fn set_bit(v: u8, index: u8) -> (value: u8)
    requires
        index < 8,
    ensures
        value == bit_raised(v, index),
{
    v | (1u8 << index)
}

/// Corrects the accumulator to packed decimal.
pub fn daa(a: u8, old: Flags) -> (r: (u8, Flags))
    ensures
        r == decimal_adjusted(a, old),
{
    let mut fix: u8 = 0;
    let mut carry = old.c;
    proof {
        lemma_byte_bits(a);
    }
    if old.h || (!old.n && (a & 0x0F) > 0x09) {
        fix += 0x06;
    }
    if old.c || (!old.n && a > 0x99) {
        fix += 0x60;
        carry = true;
    }
    let value = if old.n {
        a.wrapping_sub(fix)
    } else {
        a.wrapping_add(fix)
    };
    (value, Flags { z: value == 0, n: old.n, h: false, c: carry })
}

/// Inverts every bit; zero and carry stay as they were.
pub fn cpl(a: u8, old: Flags) -> (r: (u8, Flags))
    ensures
        r == complemented(a, old),
{
    proof {
        lemma_byte_bits(a);
    }
    (!a, Flags { z: old.z, n: true, h: true, c: old.c })
}

/// Sets carry; zero stays as it was.
pub fn scf(old: Flags) -> (flags: Flags)
    ensures
        flags == carry_set(old),
{
    Flags { z: old.z, n: false, h: false, c: true }
}

/// Inverts carry; zero stays as it was.
pub fn ccf(old: Flags) -> (flags: Flags)
    ensures
        flags == carry_flipped(old),
{
    Flags { z: old.z, n: false, h: false, c: !old.c }
}

/// The byte that holds two decimal digits, one to a nibble.
pub open spec fn packed(tens: int, ones: int) -> u8 {
    (16 * tens + ones) as u8
}

/// A number written as sixteen times one part plus a part below sixteen has
/// the second part as its low nibble.
proof fn lemma_low_nibble(v: int, upper: int, lower: int)
    requires
        v == 16 * upper + lower,
        0 <= lower < 16,
    ensures
        v % 16 == lower,
{
    vstd::arithmetic::div_mod::lemma_fundamental_div_mod_converse(v, 16, upper, lower);
}

/// A number that differs from a byte by a multiple of 256 wraps to that byte.
proof fn lemma_wraps_to(v: int, turns: int, byte: int)
    requires
        v == 256 * turns + byte,
        0 <= byte < 256,
    ensures
        wrap8(v) == byte,
{
    vstd::arithmetic::div_mod::lemma_fundamental_div_mod_converse(v, 256, turns, byte);
}

/// Adding two packed decimals and adjusting the sum gives their packed
/// decimal sum, digit by digit, with carry where the sum passes 99.
pub proof fn law_decimal_adjust_after_addition(xh: int, xl: int, yh: int, yl: int, carry: bool)
    requires
        0 <= xh <= 9,
        0 <= xl <= 9,
        0 <= yh <= 9,
        0 <= yl <= 9,
    ensures
        ({
            let (sum, flags) = sum8(packed(xh, xl), packed(yh, yl), carry);
            let ones = xl + yl + bit_value(carry);
            let tens = xh + yh + bit_value(ones >= 10);
            let digit_ones = ones - 10 * bit_value(ones >= 10);
            let digit_tens = tens - 10 * bit_value(tens >= 10);
            decimal_adjusted(sum, flags) == (
                packed(digit_tens, digit_ones),
                Flags { z: digit_tens == 0 && digit_ones == 0, n: false, h: false, c: tens >= 10 },
            )
        }),
{
    let a = packed(xh, xl);
    let b = packed(yh, yl);
    let ones = xl + yl + bit_value(carry);
    let total = 16 * (xh + yh) + ones;
    let low = ones >= 10;
    let high = xh + yh + bit_value(low) >= 10;
    let over = bit_value(total >= 256);
    let sum = total - 256 * over;
    let adjusted = total + 6 * bit_value(low) - 160 * bit_value(high);
    lemma_low_nibble(a as int, xh, xl);
    lemma_low_nibble(b as int, yh, yl);
    lemma_wraps_to(total, over, sum);
    lemma_low_nibble(
        sum,
        xh + yh - 16 * over + bit_value(ones >= 16),
        ones - 16 * bit_value(ones >= 16),
    );
    lemma_wraps_to(
        sum + 0x60 * bit_value(high) + 6 * bit_value(low),
        bit_value(high) - over,
        adjusted,
    );
    assert(sum8(a, b, carry) == (
        sum as u8,
        Flags { z: sum == 0, n: false, h: ones >= 16, c: total >= 256 },
    ));
}

/// Subtracting two packed decimals and adjusting the difference gives their
/// packed decimal difference, digit by digit, with carry where the difference
/// falls below zero.
pub proof fn law_decimal_adjust_after_subtraction(
    xh: int,
    xl: int,
    yh: int,
    yl: int,
    borrow: bool,
)
    requires
        0 <= xh <= 9,
        0 <= xl <= 9,
        0 <= yh <= 9,
        0 <= yl <= 9,
    ensures
        ({
            let (difference, flags) = difference8(packed(xh, xl), packed(yh, yl), borrow);
            let ones = xl - yl - bit_value(borrow);
            let tens = xh - yh - bit_value(ones < 0);
            let digit_ones = ones + 10 * bit_value(ones < 0);
            let digit_tens = tens + 10 * bit_value(tens < 0);
            decimal_adjusted(difference, flags) == (
                packed(digit_tens, digit_ones),
                Flags { z: digit_tens == 0 && digit_ones == 0, n: true, h: false, c: tens < 0 },
            )
        }),
{
    let a = packed(xh, xl);
    let b = packed(yh, yl);
    let ones = xl - yl - bit_value(borrow);
    let total = 16 * (xh - yh) + ones;
    let low = ones < 0;
    let high = total < 0;
    let difference = total + 256 * bit_value(high);
    let adjusted = total - 6 * bit_value(low) + 160 * bit_value(high);
    lemma_low_nibble(a as int, xh, xl);
    lemma_low_nibble(b as int, yh, yl);
    lemma_wraps_to(total, -bit_value(high), difference);
    lemma_wraps_to(
        difference - 0x60 * bit_value(high) - 6 * bit_value(low),
        0,
        adjusted,
    );
    assert(difference8(a, b, borrow) == (
        difference as u8,
        Flags { z: difference == 0, n: true, h: low, c: high },
    ));
}

/// Subtracting what was added, with the same carry, gives back the first
/// operand.
pub proof fn law_subtraction_undoes_addition(a: u8, b: u8, carry: bool)
    ensures
        difference8(sum8(a, b, carry).0, b, carry).0 == a,
{
}

/// Shifting a byte around and back again gives the byte.
proof fn lemma_shifts_undo(v: u8, c: u8)
    by (bit_vector)
    requires
        c <= 1,
    ensures
        (((v << 1) | (v >> 7)) >> 1) | (((v << 1) | (v >> 7)) << 7) == v,
        (((v >> 1) | (v << 7)) << 1) | (((v >> 1) | (v << 7)) >> 7) == v,
        (((v << 4) | (v >> 4)) << 4) | (((v << 4) | (v >> 4)) >> 4) == v,
        (((v << 1) | c) >> 1) | ((v >> 7) << 7) == v,
        ((v << 1) | c) & 1u8 == c,
        v >> 7 <= 1u8,
        (v >> 7 == 1u8) == (v >= 0x80u8),
{
}

/// A rotate right undoes a rotate left, and a second swap the first.
pub proof fn law_rotates_undo_each_other(v: u8)
    ensures
        rotated_right(rotated_left(v).0).0 == v,
        rotated_left(rotated_right(v).0).0 == v,
        swapped(swapped(v).0).0 == v,
{
    lemma_shifts_undo(v, 0);
    lemma_shift_bits(v, 0);
    lemma_shift_bits((v << 1) | (v >> 7), 0);
    lemma_shift_bits((v >> 1) | (v << 7), 0);
    lemma_shift_bits((v << 4) | (v >> 4), 0);
}

/// A rotate right through carry undoes a rotate left through carry, and
/// gives the carry back.
pub proof fn law_rotates_through_carry_undo_each_other(v: u8, carry: bool)
    ensures
        ({
            let (value, flags) = rotated_left_through(v, carry);
            rotated_right_through(value, flags.c) == (v, Flags { z: v == 0, c: carry, ..flags })
        }),
{
    let c: u8 = if carry {
        1
    } else {
        0
    };
    lemma_shifts_undo(v, c);
    lemma_shift_bits(v, c);
    lemma_shift_bits((v << 1) | c, v >> 7);
}

} // verus!
