//! The memory capability that the processor reads and writes through, and a
//! flat memory that implements it.

use vstd::prelude::*;
use crate::registers::{high, low, pair, wrap16};

verus! {

/// Byte-addressed memory as the processor sees it: a sixteen-bit address in,
/// a byte out, and nothing fails. What a write does to later reads is up to
/// the implementation, which describes itself by `peek` and `poke`.
pub trait Mmu: Sized {
    /// The byte that a read at `addr` returns.
    spec fn peek(&self, addr: u16) -> u8;

    /// The memory as it stands after a write of `value` at `addr`.
    spec fn poke(&self, addr: u16, value: u8) -> Self;

    fn read(&self, addr: u16) -> (value: u8)
        ensures
            value == self.peek(addr),
    ;

    fn write(&mut self, addr: u16, value: u8)
        ensures
            *final(self) == old(self).poke(addr, value),
    ;
}

/// The little-endian word at `addr`: low byte at `addr`, high byte at the
/// next address modulo 2^16.
pub open spec fn peek16<M: Mmu>(mem: M, addr: u16) -> u16 {
    pair(mem.peek(wrap16(addr + 1)), mem.peek(addr))
}

/// The memory after a little-endian write of `value` at `addr`: first the low
/// byte at `addr`, then the high byte at the next address modulo 2^16.
pub open spec fn poke16<M: Mmu>(mem: M, addr: u16, value: u16) -> M {
    mem.poke(addr, low(value)).poke(wrap16(addr + 1), high(value))
}

/// Reads the little-endian word at `addr`.
pub fn read16<M: Mmu>(mem: &M, addr: u16) -> (value: u16)
    ensures
        value == peek16(*mem, addr),
{
    let lo = mem.read(addr);
    let hi = mem.read(addr.wrapping_add(1));
    assert(((hi as u16) << 8) | (lo as u16) == (hi as u16) * 256 + (lo as u16)) by (bit_vector);
    ((hi as u16) << 8) | (lo as u16)
}

/// Writes `value` at `addr`, low byte first.
pub fn write16<M: Mmu>(mem: &mut M, addr: u16, value: u16)
    ensures
        *final(mem) == poke16(*old(mem), addr, value),
{
    assert((value & 0x00FF) as u8 == (value % 256) as u8 && (value >> 8) as u8 == (value / 256) as u8)
        by (bit_vector);
    mem.write(addr, (value & 0x00FF) as u8);
    mem.write(addr.wrapping_add(1), (value >> 8) as u8);
}

/// 64 KiB of plain memory: every address holds the byte last written to it,
/// and zero before the first write.
pub struct FlatMemory {
    bytes: [u8; 0x10000],
}

impl View for FlatMemory {
    type V = Seq<u8>;

    closed spec fn view(&self) -> Seq<u8> {
        self.bytes@
    }
}

impl FlatMemory {
    /// A memory that holds zero at every address.
    pub fn new() -> (mem: FlatMemory)
        ensures
            mem@ == Seq::new(0x10000, |i: int| 0u8),
            forall|addr: u16| mem.peek(addr) == 0,
    {
        let mem = FlatMemory { bytes: [0u8; 0x10000] };
        assert(mem@ =~= Seq::new(0x10000, |i: int| 0u8));
        mem
    }

    /// The contents are 65536 bytes; a read gives the byte at its address and
    /// a write replaces that byte alone.
    pub proof fn lemma_contents(self, addr: u16, value: u8)
        ensures
            self@.len() == 0x10000,
            self.peek(addr) == self@[addr as int],
            self.poke(addr, value)@ == self@.update(addr as int, value),
    {
    }
}

impl Mmu for FlatMemory {
    closed spec fn peek(&self, addr: u16) -> u8 {
        self.bytes@[addr as int]
    }

    closed spec fn poke(&self, addr: u16, value: u8) -> FlatMemory {
        FlatMemory { bytes: vstd::array::spec_array_update(self.bytes, addr as int, value) }
    }

    fn read(&self, addr: u16) -> (value: u8) {
        self.bytes[addr as usize]
    }

    fn write(&mut self, addr: u16, value: u8) {
        self.bytes[addr as usize] = value;
        assert(self.bytes =~= vstd::array::spec_array_update(old(self).bytes, addr as int, value));
    }
}

} // verus!
