use gb_cpu::alu::{
    add16, add8, add_offset, and8, ccf, cpl, daa, dec8, inc8, or8, reset_bit, rl, rlc, rr, rrc,
    scf, set_bit, sla, sra, srl, sub8, swap, test_bit, xor8,
};
use gb_cpu::registers::Flags;

fn fl(z: bool, n: bool, h: bool, c: bool) -> Flags {
    Flags { z, n, h, c }
}

#[test]
fn add_sets_all_flags() {
    assert_eq!(add8(0x3A, 0xC6, false), (0x00, fl(true, false, true, true)));
    assert_eq!(add8(0x3C, 0xFF, false), (0x3B, fl(false, false, true, true)));
    assert_eq!(add8(0x3C, 0x12, false), (0x4E, fl(false, false, false, false)));
    assert_eq!(add8(0x0F, 0x01, false), (0x10, fl(false, false, true, false)));
    assert_eq!(add8(0xF0, 0x10, false), (0x00, fl(true, false, false, true)));
    assert_eq!(add8(0x00, 0x00, false), (0x00, fl(true, false, false, false)));
}

#[test]
fn add_with_carry_in() {
    assert_eq!(add8(0xE1, 0x0F, true), (0xF1, fl(false, false, true, false)));
    assert_eq!(add8(0xE1, 0x3B, true), (0x1D, fl(false, false, false, true)));
    assert_eq!(add8(0xE1, 0x1E, true), (0x00, fl(true, false, true, true)));
    assert_eq!(add8(0xFF, 0xFF, true), (0xFF, fl(false, false, true, true)));
    assert_eq!(add8(0x0F, 0x00, true), (0x10, fl(false, false, true, false)));
}

#[test]
fn sub_sets_all_flags() {
    assert_eq!(sub8(0x3E, 0x3E, false), (0x00, fl(true, true, false, false)));
    assert_eq!(sub8(0x3E, 0x0F, false), (0x2F, fl(false, true, true, false)));
    assert_eq!(sub8(0x3E, 0x40, false), (0xFE, fl(false, true, false, true)));
    assert_eq!(sub8(0x00, 0x01, false), (0xFF, fl(false, true, true, true)));
}

#[test]
fn sub_with_borrow_in() {
    assert_eq!(sub8(0x3B, 0x2A, true), (0x10, fl(false, true, false, false)));
    assert_eq!(sub8(0x3B, 0x3A, true), (0x00, fl(true, true, false, false)));
    assert_eq!(sub8(0x3B, 0x4F, true), (0xEB, fl(false, true, true, true)));
    assert_eq!(sub8(0x00, 0xFF, true), (0x00, fl(true, true, true, true)));
    assert_eq!(sub8(0x10, 0x0F, true), (0x00, fl(true, true, true, false)));
}

#[test]
fn logic_operations() {
    assert_eq!(and8(0x5A, 0x3F), (0x1A, fl(false, false, true, false)));
    assert_eq!(and8(0x5A, 0x00), (0x00, fl(true, false, true, false)));
    assert_eq!(xor8(0xFF, 0xFF), (0x00, fl(true, false, false, false)));
    assert_eq!(xor8(0xFF, 0x0F), (0xF0, fl(false, false, false, false)));
    assert_eq!(or8(0x5A, 0x03), (0x5B, fl(false, false, false, false)));
    assert_eq!(or8(0x00, 0x00), (0x00, fl(true, false, false, false)));
}

#[test]
fn increment_keeps_carry() {
    let carry = fl(false, true, false, true);
    let clear = fl(true, true, true, false);
    assert_eq!(inc8(0xFF, carry), (0x00, fl(true, false, true, true)));
    assert_eq!(inc8(0x0F, clear), (0x10, fl(false, false, true, false)));
    assert_eq!(inc8(0x01, carry), (0x02, fl(false, false, false, true)));
    assert_eq!(inc8(0x50, clear), (0x51, fl(false, false, false, false)));
}

#[test]
fn decrement_keeps_carry() {
    let carry = fl(false, false, false, true);
    let clear = fl(true, false, true, false);
    assert_eq!(dec8(0x01, carry), (0x00, fl(true, true, false, true)));
    assert_eq!(dec8(0x00, clear), (0xFF, fl(false, true, true, false)));
    assert_eq!(dec8(0x10, clear), (0x0F, fl(false, true, true, false)));
    assert_eq!(dec8(0x42, carry), (0x41, fl(false, true, false, true)));
}

#[test]
fn wide_add_keeps_zero() {
    let z = fl(true, true, true, true);
    let nz = fl(false, true, false, false);
    assert_eq!(add16(0x8A23, 0x0605, z), (0x9028, fl(true, false, true, false)));
    assert_eq!(add16(0x8A23, 0x8A23, nz), (0x1446, fl(false, false, true, true)));
    assert_eq!(add16(0x0FFF, 0x0001, nz), (0x1000, fl(false, false, true, false)));
    assert_eq!(add16(0xFFFF, 0x0001, nz), (0x0000, fl(false, false, true, true)));
    assert_eq!(add16(0x1000, 0x2000, z), (0x3000, fl(true, false, false, false)));
}

#[test]
fn displaced_add() {
    assert_eq!(add_offset(0xFFF8, 2), (0xFFFA, fl(false, false, false, false)));
    assert_eq!(add_offset(0x0001, -1), (0x0000, fl(false, false, true, true)));
    assert_eq!(add_offset(0x0000, -1), (0xFFFF, fl(false, false, false, false)));
    assert_eq!(add_offset(0x00FF, 1), (0x0100, fl(false, false, true, true)));
    assert_eq!(add_offset(0x000F, 1), (0x0010, fl(false, false, true, false)));
    assert_eq!(add_offset(0xFFFF, 127), (0x007E, fl(false, false, true, true)));
    assert_eq!(add_offset(0x0100, -128), (0x0080, fl(false, false, false, false)));
}

#[test]
fn rotates() {
    assert_eq!(rlc(0x85), (0x0B, fl(false, false, false, true)));
    assert_eq!(rlc(0x00), (0x00, fl(true, false, false, false)));
    assert_eq!(rrc(0x3B), (0x9D, fl(false, false, false, true)));
    assert_eq!(rrc(0x01), (0x80, fl(false, false, false, true)));
    assert_eq!(rl(0x95, true), (0x2B, fl(false, false, false, true)));
    assert_eq!(rl(0x80, false), (0x00, fl(true, false, false, true)));
    assert_eq!(rr(0x81, false), (0x40, fl(false, false, false, true)));
    assert_eq!(rr(0x01, false), (0x00, fl(true, false, false, true)));
    assert_eq!(rr(0x8A, true), (0xC5, fl(false, false, false, false)));
}

#[test]
fn shifts_and_swap() {
    assert_eq!(sla(0x80), (0x00, fl(true, false, false, true)));
    assert_eq!(sla(0xFF), (0xFE, fl(false, false, false, true)));
    assert_eq!(sra(0x8A), (0xC5, fl(false, false, false, false)));
    assert_eq!(sra(0x01), (0x00, fl(true, false, false, true)));
    assert_eq!(srl(0x01), (0x00, fl(true, false, false, true)));
    assert_eq!(srl(0xFF), (0x7F, fl(false, false, false, true)));
    assert_eq!(swap(0xF0), (0x0F, fl(false, false, false, false)));
    assert_eq!(swap(0x00), (0x00, fl(true, false, false, false)));
    assert_eq!(swap(0x12), (0x21, fl(false, false, false, false)));
}

#[test]
fn bit_operations() {
    let old = fl(false, true, false, true);
    assert_eq!(test_bit(0x80, 7, old), fl(false, false, true, true));
    assert_eq!(test_bit(0xEF, 4, old), fl(true, false, true, true));
    assert_eq!(test_bit(0x01, 0, fl(true, true, false, false)), fl(false, false, true, false));
    assert_eq!(reset_bit(0x80, 7), 0x00);
    assert_eq!(reset_bit(0x3B, 1), 0x39);
    assert_eq!(reset_bit(0xFF, 3), 0xF7);
    assert_eq!(set_bit(0x80, 3), 0x88);
    assert_eq!(set_bit(0x3B, 7), 0xBB);
    assert_eq!(set_bit(0x00, 0), 0x01);
    for index in 0..8u8 {
        assert_eq!(set_bit(0, index), 1 << index);
        assert_eq!(reset_bit(0xFF, index), !(1u8 << index));
        assert_eq!(test_bit(1 << index, index, old).z, false);
        assert_eq!(test_bit(!(1u8 << index), index, old).z, true);
    }
}

#[test]
fn decimal_adjust_after_addition() {
    // 0x45 + 0x38 = 0x7D
    assert_eq!(daa(0x7D, fl(false, false, false, false)), (0x83, fl(false, false, false, false)));
    // 0x99 + 0x01 = 0x9A
    assert_eq!(daa(0x9A, fl(false, false, false, false)), (0x00, fl(true, false, false, true)));
    // 0x08 + 0x08 = 0x10 with half carry
    assert_eq!(daa(0x10, fl(false, false, true, false)), (0x16, fl(false, false, false, false)));
    // 0x90 + 0x90 = 0x20 with carry
    assert_eq!(daa(0x20, fl(false, false, false, true)), (0x80, fl(false, false, false, true)));
    assert_eq!(daa(0x00, fl(true, false, false, false)), (0x00, fl(true, false, false, false)));
}

#[test]
fn decimal_adjust_after_subtraction() {
    // 0x83 - 0x38 = 0x4B with half carry
    assert_eq!(daa(0x4B, fl(false, true, true, false)), (0x45, fl(false, true, false, false)));
    // 0x10 - 0x20 = 0xF0 with carry
    assert_eq!(daa(0xF0, fl(false, true, false, true)), (0x90, fl(false, true, false, true)));
    // 0x00 - 0x01 = 0xFF with both
    assert_eq!(daa(0xFF, fl(false, true, true, true)), (0x99, fl(false, true, false, true)));
    assert_eq!(daa(0x9A, fl(false, true, false, false)), (0x9A, fl(false, true, false, false)));
}

#[test]
fn complement_and_carry_operations() {
    assert_eq!(cpl(0x35, fl(true, false, false, true)), (0xCA, fl(true, true, true, true)));
    assert_eq!(cpl(0x00, fl(false, false, false, false)), (0xFF, fl(false, true, true, false)));
    assert_eq!(scf(fl(true, true, true, false)), fl(true, false, false, true));
    assert_eq!(scf(fl(false, false, false, true)), fl(false, false, false, true));
    assert_eq!(ccf(fl(true, true, true, true)), fl(true, false, false, false));
    assert_eq!(ccf(fl(false, true, true, false)), fl(false, false, false, true));
}

#[test]
fn add_agrees_with_wide_arithmetic() {
    for a in 0..=255u16 {
        for b in [0u16, 1, 0x0F, 0x10, 0x7F, 0x80, 0xF0, 0xFF] {
            for carry in [false, true] {
                let total = a + b + carry as u16;
                let (value, f) = add8(a as u8, b as u8, carry);
                assert_eq!(value as u16, total % 256);
                assert_eq!(f.z, total % 256 == 0);
                assert_eq!(f.c, total >= 256);
                assert_eq!(f.h, a % 16 + b % 16 + carry as u16 >= 16);
                assert!(!f.n);
            }
        }
    }
}

#[test]
fn sub_agrees_with_wide_arithmetic() {
    for a in 0..=255i32 {
        for b in [0i32, 1, 0x0F, 0x10, 0x7F, 0x80, 0xF0, 0xFF] {
            for borrow in [false, true] {
                let total = a - b - borrow as i32;
                let (value, f) = sub8(a as u8, b as u8, borrow);
                assert_eq!(value as i32, total.rem_euclid(256));
                assert_eq!(f.z, total.rem_euclid(256) == 0);
                assert_eq!(f.c, total < 0);
                assert_eq!(f.h, a % 16 - b % 16 - (borrow as i32) < 0);
                assert!(f.n);
            }
        }
    }
}

#[test]
fn decimal_adjust_agrees_with_the_stepwise_rule() {
    for a in 0..=255u8 {
        for bits in 0..8u8 {
            let old = fl(false, bits & 4 != 0, bits & 2 != 0, bits & 1 != 0);
            let mut value = a;
            let mut carry = old.c;
            if !old.n {
                if old.c || a > 0x99 {
                    value = value.wrapping_add(0x60);
                    carry = true;
                }
                if old.h || (a & 0x0F) > 0x09 {
                    value = value.wrapping_add(0x06);
                }
            } else {
                if old.c {
                    value = value.wrapping_sub(0x60);
                }
                if old.h {
                    value = value.wrapping_sub(0x06);
                }
            }
            assert_eq!(daa(a, old), (value, fl(value == 0, old.n, false, carry)));
        }
    }
}

#[test]
fn decimal_adjust_corrects_every_packed_sum() {
    for x in 0..100u8 {
        for y in 0..100u8 {
            let (a, b) = (x / 10 * 16 + x % 10, y / 10 * 16 + y % 10);
            let (sum, f) = add8(a, b, false);
            let (value, after) = daa(sum, f);
            let total = x + y;
            assert_eq!(value, total % 100 / 10 * 16 + total % 10);
            assert_eq!(after.c, total >= 100);
        }
    }
}

#[test]
fn decimal_adjust_corrects_every_packed_difference() {
    for x in 0..100u8 {
        for y in 0..100u8 {
            let (a, b) = (x / 10 * 16 + x % 10, y / 10 * 16 + y % 10);
            let (difference, f) = sub8(a, b, false);
            let (value, after) = daa(difference, f);
            let total = (100 + x - y) % 100;
            assert_eq!(value, total / 10 * 16 + total % 10);
            assert_eq!(after.c, x < y);
            assert!(after.n);
        }
    }
}

#[test]
fn rotates_and_shifts_agree_with_the_machine() {
    for v in 0..=255u8 {
        assert_eq!(rlc(v).0, v.rotate_left(1));
        assert_eq!(rrc(v).0, v.rotate_right(1));
        assert_eq!(swap(v).0, v.rotate_left(4));
        assert_eq!(sla(v).0, v.wrapping_shl(1));
        assert_eq!(srl(v).0, v >> 1);
        assert_eq!(sra(v).0, ((v as i8) >> 1) as u8);
        assert_eq!(cpl(v, fl(false, false, false, false)).0, !v);
        for carry in [false, true] {
            assert_eq!(rl(v, carry).0, ((v as u16) << 1 | carry as u16) as u8);
            assert_eq!(rr(v, carry).0, v >> 1 | (carry as u8) << 7);
            assert_eq!(rl(v, carry).1.c, v & 0x80 != 0);
            assert_eq!(rr(v, carry).1.c, v & 0x01 != 0);
        }
        assert_eq!(rlc(v).1.c, v & 0x80 != 0);
        assert_eq!(sla(v).1.c, v & 0x80 != 0);
        assert_eq!(rrc(v).1.c, v & 0x01 != 0);
        assert_eq!(sra(v).1.c, v & 0x01 != 0);
        assert_eq!(srl(v).1.c, v & 0x01 != 0);
        assert_eq!(inc8(v, fl(false, false, false, false)).0, v.wrapping_add(1));
        assert_eq!(dec8(v, fl(false, false, false, false)).0, v.wrapping_sub(1));
    }
}

#[test]
fn wide_operations_agree_with_wide_arithmetic() {
    let old = fl(false, false, false, false);
    for a in [0u16, 1, 0x00FF, 0x0100, 0x0FFF, 0x1000, 0x7FFF, 0x8000, 0xFFF0, 0xFFFF] {
        for b in [0u16, 1, 0x00FF, 0x0100, 0x0FFF, 0x1000, 0x7FFF, 0x8000, 0xFFF0, 0xFFFF] {
            let (value, f) = add16(a, b, old);
            assert_eq!(value, a.wrapping_add(b));
            assert_eq!(f.c, a as u32 + b as u32 > 0xFFFF);
            assert_eq!(f.h, (a & 0x0FFF) + (b & 0x0FFF) > 0x0FFF);
        }
        for offset in -128..=127i32 {
            let (value, f) = add_offset(a, offset as i8);
            assert_eq!(value as i32, (a as i32 + offset).rem_euclid(0x10000));
            let byte = offset as u8 as u16;
            assert_eq!(f.c, (a & 0xFF) + byte > 0xFF);
            assert_eq!(f.h, (a & 0x0F) + (byte & 0x0F) > 0x0F);
            assert!(!f.z && !f.n);
        }
    }
}

#[test]
fn subtraction_undoes_addition() {
    for a in 0..=255u8 {
        for b in [0u8, 1, 0x0F, 0x10, 0x7F, 0x80, 0xFE, 0xFF] {
            for carry in [false, true] {
                assert_eq!(sub8(add8(a, b, carry).0, b, carry).0, a);
            }
        }
    }
}

#[test]
fn rotates_undo_each_other() {
    for v in 0..=255u8 {
        assert_eq!(rrc(rlc(v).0).0, v);
        assert_eq!(rlc(rrc(v).0).0, v);
        assert_eq!(swap(swap(v).0).0, v);
        for carry in [false, true] {
            let (value, f) = rl(v, carry);
            let (back, after) = rr(value, f.c);
            assert_eq!(back, v);
            assert_eq!(after.c, carry);
        }
    }
}
