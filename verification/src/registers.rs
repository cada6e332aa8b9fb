//! The register file: seven one-byte general registers, the flag byte, and
//! the two sixteen-bit registers `pc` and `sp`, with the paired views AF, BC,
//! DE and HL.

use vstd::prelude::*;

verus! {

/// Clock speed of the processor.
#[derive(Copy, Clone, Debug, PartialEq, Eq, Structural)]
pub enum GbSpeed {
    Single,
    Double,
}

impl GbSpeed {
    /// How many processor cycles pass per base clock tick at this speed.
    pub open spec fn factor(self) -> u8 {
        match self {
            GbSpeed::Single => 1,
            GbSpeed::Double => 2,
        }
    }

    /// How many processor cycles pass per base clock tick at this speed.
    pub fn multiplier(&self) -> (m: u8)
        ensures
            m == self.factor(),
    {
        match self {
            GbSpeed::Single => 1,
            GbSpeed::Double => 2,
        }
    }
}

/// One of the four condition bits kept in the top nibble of the flag byte.
#[derive(Copy, Clone, Debug, PartialEq, Eq, Structural)]
pub enum CpuFlag {
    /// Zero: the result of the last operation was zero.
    Z,
    /// Subtract: the last operation was a subtraction.
    N,
    /// Half carry: carry or borrow between bit 3 and bit 4.
    H,
    /// Carry: carry or borrow out of bit 7.
    C,
}

impl CpuFlag {
    /// The bit of the flag byte that holds this flag.
    pub open spec fn bit(self) -> u8 {
        match self {
            CpuFlag::Z => 0x80,
            CpuFlag::N => 0x40,
            CpuFlag::H => 0x20,
            CpuFlag::C => 0x10,
        }
    }

    /// The bit of the flag byte that holds this flag.
    pub fn mask(&self) -> (m: u8)
        ensures
            m == self.bit(),
    {
        match self {
            CpuFlag::Z => 0x80,
            CpuFlag::N => 0x40,
            CpuFlag::H => 0x20,
            CpuFlag::C => 0x10,
        }
    }
}

/// Names a register, a register pair, or no register at all.
#[allow(non_camel_case_types)]
#[derive(Copy, Clone, Debug, PartialEq, Eq, Structural)]
pub enum RegType {
    NONE,
    A,
    F,
    B,
    C,
    D,
    E,
    H,
    L,
    AF,
    BC,
    DE,
    HL,
    SP,
    PC,
}

impl RegType {
    /// Whether the name stands for sixteen bits.
    pub open spec fn is_wide(self) -> bool {
        self is AF || self is BC || self is DE || self is HL || self is SP || self is PC
    }

    /// Whether the name stands for sixteen bits.
    pub fn wide(&self) -> (w: bool)
        ensures
            w == self.is_wide(),
    {
        match self {
            RegType::AF | RegType::BC | RegType::DE | RegType::HL | RegType::SP | RegType::PC => true,
            _ => false,
        }
    }
}

/// The sixteen-bit value whose high byte is `hi` and whose low byte is `lo`.
pub open spec fn pair(hi: u8, lo: u8) -> u16 {
    (hi * 256 + lo) as u16
}

/// The high byte of a sixteen-bit value.
pub open spec fn high(v: u16) -> u8 {
    (v / 256) as u8
}

/// The low byte of a sixteen-bit value.
pub open spec fn low(v: u16) -> u8 {
    (v % 256) as u8
}

/// The integer `i` reduced modulo 2^8.
pub open spec fn wrap8(i: int) -> u8 {
    (i % 0x100) as u8
}

/// The integer `i` reduced modulo 2^16.
pub open spec fn wrap16(i: int) -> u16 {
    (i % 0x10000) as u16
}

/// The four flags as truth values.
#[derive(Copy, Clone, Debug, PartialEq, Eq, Structural)]
pub struct Flags {
    pub z: bool,
    pub n: bool,
    pub h: bool,
    pub c: bool,
}

impl Flags {
    /// The flag byte in which exactly these flags are set.
    pub open spec fn byte(self) -> u8 {
        ((if self.z {
            0x80int
        } else {
            0
        }) + (if self.n {
            0x40int
        } else {
            0
        }) + (if self.h {
            0x20int
        } else {
            0
        }) + (if self.c {
            0x10int
        } else {
            0
        })) as u8
    }
}

/// Mathematical model of the register file: every register as a plain value.
pub struct RegisterState {
    pub a: u8,
    pub f: u8,
    pub b: u8,
    pub c: u8,
    pub d: u8,
    pub e: u8,
    pub h: u8,
    pub l: u8,
    pub pc: u16,
    pub sp: u16,
}

impl RegisterState {
    /// The low nibble of the flag byte is zero.
    pub open spec fn wf(self) -> bool {
        self.f & 0x0F == 0
    }

    /// The register file as it stands once the boot program has run.
    pub open spec fn power_on() -> RegisterState {
        RegisterState {
            a: 0x01,
            f: (Flags { z: true, n: false, h: true, c: true }).byte(),
            b: 0x00,
            c: 0x13,
            d: 0x00,
            e: 0xD8,
            h: 0x01,
            l: 0x4D,
            pc: 0x0100,
            sp: 0xFFFE,
        }
    }

    /// A in the high byte, the top nibble of the flag byte in the low byte.
    pub open spec fn af(self) -> u16 {
        pair(self.a, self.f & 0xF0)
    }

    /// B in the high byte, C in the low byte.
    pub open spec fn bc(self) -> u16 {
        pair(self.b, self.c)
    }

    /// D in the high byte, E in the low byte.
    pub open spec fn de(self) -> u16 {
        pair(self.d, self.e)
    }

    /// H in the high byte, L in the low byte.
    pub open spec fn hl(self) -> u16 {
        pair(self.h, self.l)
    }

    /// The state after `v` was stored in AF: the low nibble of `v` is dropped.
    pub open spec fn with_af(self, v: u16) -> RegisterState {
        RegisterState { a: high(v), f: low(v) & 0xF0, ..self }
    }

    /// The state after `v` was stored in BC.
    pub open spec fn with_bc(self, v: u16) -> RegisterState {
        RegisterState { b: high(v), c: low(v), ..self }
    }

    /// The state after `v` was stored in DE.
    pub open spec fn with_de(self, v: u16) -> RegisterState {
        RegisterState { d: high(v), e: low(v), ..self }
    }

    /// The state after `v` was stored in HL.
    pub open spec fn with_hl(self, v: u16) -> RegisterState {
        RegisterState { h: high(v), l: low(v), ..self }
    }

    /// Whether `flag` is set.
    pub open spec fn flag(self, flag: CpuFlag) -> bool {
        self.f & flag.bit() != 0
    }

    /// The state with `flag` set or cleared and the low nibble of the flag
    /// byte zeroed.
    pub open spec fn with_flag(self, flag: CpuFlag, set: bool) -> RegisterState {
        RegisterState {
            f: (if set {
                self.f | flag.bit()
            } else {
                self.f & !flag.bit()
            }) & 0xF0,
            ..self
        }
    }

    /// All four flags.
    pub open spec fn flags(self) -> Flags {
        Flags {
            z: self.flag(CpuFlag::Z),
            n: self.flag(CpuFlag::N),
            h: self.flag(CpuFlag::H),
            c: self.flag(CpuFlag::C),
        }
    }

    /// The state whose flag byte holds exactly the given flags.
    pub open spec fn with_flags(self, flags: Flags) -> RegisterState {
        RegisterState { f: flags.byte(), ..self }
    }

    /// The value of the named register; a one-byte register is zero-extended
    /// and no register reads as zero.
    pub open spec fn read(self, r: RegType) -> u16 {
        match r {
            RegType::NONE => 0,
            RegType::A => self.a as u16,
            RegType::F => (self.f & 0xF0) as u16,
            RegType::B => self.b as u16,
            RegType::C => self.c as u16,
            RegType::D => self.d as u16,
            RegType::E => self.e as u16,
            RegType::H => self.h as u16,
            RegType::L => self.l as u16,
            RegType::AF => self.af(),
            RegType::BC => self.bc(),
            RegType::DE => self.de(),
            RegType::HL => self.hl(),
            RegType::SP => self.sp,
            RegType::PC => self.pc,
        }
    }

    /// The state after `v` was stored in the named register; a one-byte
    /// register takes the low byte of `v`, the flag byte only its top nibble,
    /// and storing to no register changes nothing.
    pub open spec fn write(self, r: RegType, v: u16) -> RegisterState {
        match r {
            RegType::NONE => self,
            RegType::A => RegisterState { a: low(v), ..self },
            RegType::F => RegisterState { f: low(v) & 0xF0, ..self },
            RegType::B => RegisterState { b: low(v), ..self },
            RegType::C => RegisterState { c: low(v), ..self },
            RegType::D => RegisterState { d: low(v), ..self },
            RegType::E => RegisterState { e: low(v), ..self },
            RegType::H => RegisterState { h: low(v), ..self },
            RegType::L => RegisterState { l: low(v), ..self },
            RegType::AF => self.with_af(v),
            RegType::BC => self.with_bc(v),
            RegType::DE => self.with_de(v),
            RegType::HL => self.with_hl(v),
            RegType::SP => RegisterState { sp: v, ..self },
            RegType::PC => RegisterState { pc: v, ..self },
        }
    }
}

/// The register file. The flag byte is private: its low nibble is zero after
/// every operation that stores to it.
#[derive(Copy, Clone)]
pub struct Registers {
    pub a: u8,
    pub b: u8,
    pub c: u8,
    pub d: u8,
    pub e: u8,
    pub h: u8,
    pub l: u8,
    f: u8,
    pub pc: u16,
    pub sp: u16,
}

/// Shifting and or-ing two bytes together is the arithmetic of `pair`.
proof fn lemma_pair_bits(hi: u8, lo: u8)
    by (bit_vector)
    ensures
        ((hi as u16) << 8) | (lo as u16) == (hi as u16) * 256 + (lo as u16),
{
}

/// Shifting and masking a word is the arithmetic of `high` and `low`.
proof fn lemma_split_bits(v: u16)
    by (bit_vector)
    ensures
        (v >> 8) as u8 == (v / 256) as u8,
        (v & 0x00FF) as u8 == (v % 256) as u8,
        (v & 0x00F0) as u8 == ((v % 256) as u8) & 0xF0u8,
        v as u8 == (v % 256) as u8,
{
}

/// Masking with `0xF0` zeroes the low nibble and nothing else, and setting
/// and clearing one flag bit of a byte with a zero low nibble undo each other.
proof fn lemma_nibble_bits(f: u8, m: u8)
    by (bit_vector)
    ensures
        (f & 0xF0u8) & 0x0Fu8 == 0u8,
        (f & 0xF0u8) & 0xF0u8 == f & 0xF0u8,
        f & 0x0Fu8 == 0u8 ==> f & 0xF0u8 == f,
        f & 0x0Fu8 == 0u8 && f & m == 0u8 && (m == 0x80u8 || m == 0x40u8 || m == 0x20u8 || m
            == 0x10u8) ==> ((f | m) & 0xF0u8) & !m & 0xF0u8 == f,
{
}

/// The sum of four flag bits shows each flag in its own bit.
proof fn lemma_flag_byte_bits(z: u8, n: u8, h: u8, c: u8, f: u8)
    by (bit_vector)
    requires
        z <= 1,
        n <= 1,
        h <= 1,
        c <= 1,
        f == (z * 0x80u8 + n * 0x40u8 + h * 0x20u8 + c * 0x10u8) as u8,
    ensures
        (f & 0x80u8 != 0u8) == (z == 1u8),
        (f & 0x40u8 != 0u8) == (n == 1u8),
        (f & 0x20u8 != 0u8) == (h == 1u8),
        (f & 0x10u8 != 0u8) == (c == 1u8),
        f & 0x0Fu8 == 0u8,
        f & 0xF0u8 == f,
{
}

/// A flag byte built from four flags has its low nibble zero and shows each
/// flag in its own bit.
pub proof fn lemma_flag_byte(flags: Flags)
    ensures
        flags.byte() & 0x80 != 0 <==> flags.z,
        flags.byte() & 0x40 != 0 <==> flags.n,
        flags.byte() & 0x20 != 0 <==> flags.h,
        flags.byte() & 0x10 != 0 <==> flags.c,
        flags.byte() & 0x0F == 0,
        flags.byte() & 0xF0 == flags.byte(),
{
    let zb: u8 = if flags.z { 1 } else { 0 };
    let nb: u8 = if flags.n { 1 } else { 0 };
    let hb: u8 = if flags.h { 1 } else { 0 };
    let cb: u8 = if flags.c { 1 } else { 0 };
    lemma_flag_byte_bits(zb, nb, hb, cb, flags.byte());
}

impl View for Registers {
    type V = RegisterState;

    closed spec fn view(&self) -> RegisterState {
        RegisterState {
            a: self.a,
            f: self.f,
            b: self.b,
            c: self.c,
            d: self.d,
            e: self.e,
            h: self.h,
            l: self.l,
            pc: self.pc,
            sp: self.sp,
        }
    }
}

impl Registers {
    /// The register file as it stands once the boot program has run.
    pub fn new() -> (r: Registers)
        ensures
            r@ == RegisterState::power_on(),
            r@.wf(),
    {
        let f = CpuFlag::C.mask() | CpuFlag::H.mask() | CpuFlag::Z.mask();
        assert(0x10u8 | 0x20u8 | 0x80u8 == 0xB0u8 && 0xB0u8 & 0x0Fu8 == 0u8) by (bit_vector);
        Registers {
            a: 0x01,
            f,
            b: 0x00,
            c: 0x13,
            d: 0x00,
            e: 0xD8,
            h: 0x01,
            l: 0x4D,
            pc: 0x0100,
            sp: 0xFFFE,
        }
    }

    /// Reads AF; the low nibble is zero.
    pub fn af(&self) -> (v: u16)
        ensures
            v == self@.af(),
    {
        proof {
            lemma_pair_bits(self.a, self.f & 0xF0);
        }
        ((self.a as u16) << 8) | ((self.f & 0xF0) as u16)
    }

    /// Reads BC.
    pub fn bc(&self) -> (v: u16)
        ensures
            v == self@.bc(),
    {
        proof {
            lemma_pair_bits(self.b, self.c);
        }
        ((self.b as u16) << 8) | (self.c as u16)
    }

    /// Reads DE.
    pub fn de(&self) -> (v: u16)
        ensures
            v == self@.de(),
    {
        proof {
            lemma_pair_bits(self.d, self.e);
        }
        ((self.d as u16) << 8) | (self.e as u16)
    }

    /// Reads HL.
    pub fn hl(&self) -> (v: u16)
        ensures
            v == self@.hl(),
    {
        proof {
            lemma_pair_bits(self.h, self.l);
        }
        ((self.h as u16) << 8) | (self.l as u16)
    }

    /// Reads HL, then decrements it modulo 2^16.
    pub fn hld(&mut self) -> (v: u16)
        ensures
            v == old(self)@.hl(),
            final(self)@ == old(self)@.with_hl(wrap16(old(self)@.hl() - 1)),
    {
        let res = self.hl();
        self.sethl(res.wrapping_sub(1));
        res
    }

    /// Reads HL, then increments it modulo 2^16.
    pub fn hli(&mut self) -> (v: u16)
        ensures
            v == old(self)@.hl(),
            final(self)@ == old(self)@.with_hl(wrap16(old(self)@.hl() + 1)),
    {
        let res = self.hl();
        self.sethl(res.wrapping_add(1));
        res
    }

    /// Stores the high byte of `value` in A and the top nibble of its low
    /// byte in the flag byte.
    pub fn setaf(&mut self, value: u16)
        ensures
            final(self)@ == old(self)@.with_af(value),
            final(self)@.wf(),
    {
        proof {
            lemma_split_bits(value);
            lemma_nibble_bits(low(value), 0);
        }
        self.a = (value >> 8) as u8;
        self.f = (value & 0x00F0) as u8;
    }

    /// Stores `value` in BC.
    pub fn setbc(&mut self, value: u16)
        ensures
            final(self)@ == old(self)@.with_bc(value),
    {
        proof {
            lemma_split_bits(value);
        }
        self.b = (value >> 8) as u8;
        self.c = (value & 0x00FF) as u8;
    }

    /// Stores `value` in DE.
    pub fn setde(&mut self, value: u16)
        ensures
            final(self)@ == old(self)@.with_de(value),
    {
        proof {
            lemma_split_bits(value);
        }
        self.d = (value >> 8) as u8;
        self.e = (value & 0x00FF) as u8;
    }

    /// Stores `value` in HL.
    pub fn sethl(&mut self, value: u16)
        ensures
            final(self)@ == old(self)@.with_hl(value),
    {
        proof {
            lemma_split_bits(value);
        }
        self.h = (value >> 8) as u8;
        self.l = (value & 0x00FF) as u8;
    }

    /// Sets or clears one flag, then zeroes the low nibble of the flag byte.
    pub fn flag(&mut self, flags: &CpuFlag, set: bool)
        ensures
            final(self)@ == old(self)@.with_flag(*flags, set),
            final(self)@.wf(),
    {
        let mask = flags.mask();
        match set {
            true => self.f |= mask,
            false => self.f &= !mask,
        }
        self.f &= 0xF0;
        proof {
            lemma_nibble_bits(
                if set {
                    old(self).f | mask
                } else {
                    old(self).f & !mask
                },
                0,
            );
        }
    }

    /// Whether the flag is set.
    pub fn getflag(&self, flags: &CpuFlag) -> (set: bool)
        ensures
            set == self@.flag(*flags),
    {
        (self.f & flags.mask()) != 0
    }

    /// The flag byte.
    pub fn f(&self) -> (flags: u8)
        ensures
            flags == self@.f,
    {
        self.f
    }

    /// Stores the top nibble of `flags` in the flag byte.
    pub fn setf(&mut self, flags: u8)
        ensures
            final(self)@ == (RegisterState { f: flags & 0xF0, ..old(self)@ }),
            final(self)@.wf(),
    {
        proof {
            lemma_nibble_bits(flags, 0);
        }
        self.f = flags & 0xF0;
    }

    /// All four flags.
    pub fn flags(&self) -> (flags: Flags)
        ensures
            flags == self@.flags(),
    {
        Flags {
            z: self.getflag(&CpuFlag::Z),
            n: self.getflag(&CpuFlag::N),
            h: self.getflag(&CpuFlag::H),
            c: self.getflag(&CpuFlag::C),
        }
    }

    /// Stores all four flags at once.
    pub fn set_flags(&mut self, flags: Flags)
        ensures
            final(self)@ == old(self)@.with_flags(flags),
            final(self)@.wf(),
    {
        proof {
            lemma_flag_byte(flags);
        }
        let mut f: u8 = 0;
        if flags.z {
            f += 0x80;
        }
        if flags.n {
            f += 0x40;
        }
        if flags.h {
            f += 0x20;
        }
        if flags.c {
            f += 0x10;
        }
        self.f = f;
    }

    /// Reads the named register.
    pub fn read(&self, r: RegType) -> (v: u16)
        ensures
            v == self@.read(r),
    {
        match r {
            RegType::NONE => 0,
            RegType::A => self.a as u16,
            RegType::F => (self.f & 0xF0) as u16,
            RegType::B => self.b as u16,
            RegType::C => self.c as u16,
            RegType::D => self.d as u16,
            RegType::E => self.e as u16,
            RegType::H => self.h as u16,
            RegType::L => self.l as u16,
            RegType::AF => self.af(),
            RegType::BC => self.bc(),
            RegType::DE => self.de(),
            RegType::HL => self.hl(),
            RegType::SP => self.sp,
            RegType::PC => self.pc,
        }
    }

    /// Reads the low byte of the named register.
    pub fn read8(&self, r: RegType) -> (v: u8)
        ensures
            v == low(self@.read(r)),
    {
        let wide = self.read(r);
        proof {
            lemma_split_bits(wide);
        }
        wide as u8
    }

    /// Stores `value` in the named register.
    pub fn write(&mut self, r: RegType, value: u16)
        ensures
            final(self)@ == old(self)@.write(r, value),
            old(self)@.wf() ==> final(self)@.wf(),
    {
        proof {
            lemma_split_bits(value);
            lemma_nibble_bits(low(value), 0);
        }
        match r {
            RegType::NONE => {},
            RegType::A => self.a = value as u8,
            RegType::F => self.f = (value as u8) & 0xF0,
            RegType::B => self.b = value as u8,
            RegType::C => self.c = value as u8,
            RegType::D => self.d = value as u8,
            RegType::E => self.e = value as u8,
            RegType::H => self.h = value as u8,
            RegType::L => self.l = value as u8,
            RegType::AF => self.setaf(value),
            RegType::BC => self.setbc(value),
            RegType::DE => self.setde(value),
            RegType::HL => self.sethl(value),
            RegType::SP => self.sp = value,
            RegType::PC => self.pc = value,
        }
    }
}

/// Setting a flag that was clear and clearing it again gives back the flag
/// byte as it was.
pub proof fn law_flag_set_then_clear(s: RegisterState, flag: CpuFlag)
    requires
        s.wf(),
        !s.flag(flag),
    ensures
        s.with_flag(flag, true).with_flag(flag, false) == s,
{
    lemma_nibble_bits(s.f, flag.bit());
}

/// After any store to a flag the low nibble of the flag byte is zero, and
/// the flag reads as it was stored.
pub proof fn law_flag_store(s: RegisterState, flag: CpuFlag, set: bool)
    ensures
        s.with_flag(flag, set).wf(),
        s.with_flag(flag, set).flag(flag) == set,
{
    let m = flag.bit();
    let f = s.f;
    assert((((f | m) & 0xF0u8) & 0x0Fu8 == 0u8) && (((f & !m) & 0xF0u8) & 0x0Fu8 == 0u8) && ((m
        == 0x80u8 || m == 0x40u8 || m == 0x20u8 || m == 0x10u8) ==> (((f | m) & 0xF0u8) & m != 0u8)
        && (((f & !m) & 0xF0u8) & m == 0u8))) by (bit_vector);
}

/// Storing four flags and reading them gives the same four flags.
pub proof fn law_flags_store_then_read(s: RegisterState, flags: Flags)
    ensures
        s.with_flags(flags).flags() == flags,
        s.with_flags(flags).wf(),
{
    lemma_flag_byte(flags);
}

/// Storing in a register what was read from it changes nothing.
pub proof fn lemma_store_what_was_read(s: RegisterState, r: RegType)
    requires
        s.wf(),
    ensures
        s.write(r, s.read(r)) == s,
{
    lemma_nibble_bits(s.f, 0);
}

/// A step of HL down and a step up, in either order, leave HL as it was.
pub proof fn law_hl_steps_undo_each_other(s: RegisterState)
    ensures
        s.with_hl(wrap16(s.hl() - 1)).hl() == wrap16(s.hl() - 1),
        s.with_hl(wrap16(s.hl() + 1)).hl() == wrap16(s.hl() + 1),
        wrap16(wrap16(s.hl() - 1) + 1) == s.hl(),
        wrap16(wrap16(s.hl() + 1) - 1) == s.hl(),
{
}

/// A pair reads back what was stored in it; AF reads back the stored value
/// with the low nibble zeroed.
pub proof fn law_pair_store_then_read(s: RegisterState, v: u16)
    ensures
        s.with_bc(v).bc() == v,
        s.with_de(v).de() == v,
        s.with_hl(v).hl() == v,
        s.with_af(v).af() == v & 0xFFF0,
{
    lemma_nibble_bits(low(v), 0);
    assert(v & 0xFFF0u16 == (v / 256u16) * 256u16 + (((v % 256u16) as u8) & 0xF0u8) as u16)
        by (bit_vector);
}

} // verus!
