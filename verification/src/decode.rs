//! Fetch and decode: reads the opcode at the program counter, finds its
//! descriptor, and reads the immediate operand that the addressing mode asks
//! for. Nothing but the program counter changes.

use vstd::prelude::*;
use crate::instructions::{
    base_entry, cb_entry, decode_cb_opcode, decode_opcode, AddressingMode, Instruction,
};
use crate::memory::{peek16, read16, Mmu};
use crate::registers::{wrap16, RegType, RegisterState, Registers};

verus! {

/// The operand that follows an opcode in the instruction stream.
#[derive(Debug, Copy, Clone, PartialEq, Eq, Structural)]
pub enum Operand {
    /// The instruction has no immediate operand.
    Absent,
    /// An immediate byte, or the low byte of a zero-page address.
    Byte(u8),
    /// An immediate word or an absolute address.
    Word(u16),
    /// A signed displacement.
    Offset(i8),
}

impl Operand {
    /// The immediate byte; zero where the operand is none.
    pub open spec fn byte(self) -> u8 {
        match self {
            Operand::Byte(b) => b,
            _ => 0,
        }
    }

    /// The immediate word; zero where the operand is none.
    pub open spec fn word(self) -> u16 {
        match self {
            Operand::Word(w) => w,
            _ => 0,
        }
    }

    /// The displacement; zero where the operand is none.
    pub open spec fn offset(self) -> i8 {
        match self {
            Operand::Offset(o) => o,
            _ => 0,
        }
    }

    /// The immediate byte; zero where the operand is none.
    pub fn as_byte(&self) -> (b: u8)
        ensures
            b == self.byte(),
    {
        match self {
            Operand::Byte(b) => *b,
            _ => 0,
        }
    }

    /// The immediate word; zero where the operand is none.
    pub fn as_word(&self) -> (w: u16)
        ensures
            w == self.word(),
    {
        match self {
            Operand::Word(w) => *w,
            _ => 0,
        }
    }

    /// The displacement; zero where the operand is none.
    pub fn as_offset(&self) -> (o: i8)
        ensures
            o == self.offset(),
    {
        match self {
            Operand::Offset(o) => *o,
            _ => 0,
        }
    }
}

/// An instruction ready to execute: where it was fetched, the opcode that
/// selected its descriptor, the descriptor, and the immediate operand.
#[derive(Debug, Copy, Clone, PartialEq, Eq, Structural)]
pub struct DecodedInstruction {
    /// The address of the first byte of the instruction.
    pub pc: u16,
    /// The byte that selected the descriptor: the byte behind the prefix
    /// where there is one.
    pub opcode: u8,
    /// Whether the opcode followed the `0xCB` prefix.
    pub prefixed: bool,
    pub inst: Instruction,
    pub operand: Operand,
}

/// A byte read as a two's-complement number.
pub open spec fn signed(byte: u8) -> i8 {
    if byte < 0x80 {
        byte as i8
    } else {
        (byte - 0x100) as i8
    }
}

/// How many bytes of operand follow the opcode.
pub open spec fn operand_len(mode: AddressingMode) -> int {
    match mode {
        AddressingMode::R_D8
        | AddressingMode::MR_D8
        | AddressingMode::A8_R
        | AddressingMode::R_A8
        | AddressingMode::D8
        | AddressingMode::HL_SPR => 1,
        AddressingMode::R_D16
        | AddressingMode::D16
        | AddressingMode::A16_R
        | AddressingMode::R_A16 => 2,
        _ => 0,
    }
}

/// The operand that `mode` reads from the instruction stream at `addr`: a
/// displacement for a relative jump and for the stack pointer arithmetic, a
/// byte for an immediate and for a zero-page offset, a little-endian word for
/// a wide immediate and for an absolute address.
pub open spec fn operand_at<M: Mmu>(mem: M, addr: u16, mode: AddressingMode) -> Operand {
    match mode {
        AddressingMode::D8 | AddressingMode::HL_SPR => Operand::Offset(signed(mem.peek(addr))),
        AddressingMode::R_D8
        | AddressingMode::MR_D8
        | AddressingMode::A8_R
        | AddressingMode::R_A8 => Operand::Byte(mem.peek(addr)),
        AddressingMode::R_D16
        | AddressingMode::D16
        | AddressingMode::A16_R
        | AddressingMode::R_A16 => Operand::Word(peek16(mem, addr)),
        _ => Operand::Absent,
    }
}

/// The instruction that stands at `pc`. Where `stalled` holds, the program
/// counter does not move past the first byte, so that byte is read again as
/// whatever follows the opcode.
pub open spec fn decoded_at<M: Mmu>(mem: M, pc: u16, stalled: bool) -> DecodedInstruction {
    let first = mem.peek(pc);
    let next = if stalled {
        pc
    } else {
        wrap16(pc + 1)
    };
    if first == 0xCB {
        let second = mem.peek(next);
        DecodedInstruction {
            pc,
            opcode: second,
            prefixed: true,
            inst: cb_entry(second),
            operand: operand_at(mem, wrap16(next + 1), cb_entry(second).mode),
        }
    } else {
        DecodedInstruction {
            pc,
            opcode: first,
            prefixed: false,
            inst: base_entry(first),
            operand: operand_at(mem, next, base_entry(first).mode),
        }
    }
}

impl DecodedInstruction {
    /// The length of the instruction in bytes: the prefix where there is one,
    /// the opcode, and the operand.
    pub open spec fn len(self) -> int {
        (if self.prefixed {
            2int
        } else {
            1
        }) + operand_len(self.inst.mode)
    }

    /// The descriptor is the one that the tables give for the opcode, the
    /// prefix itself is no opcode, and the operand has the shape that the
    /// addressing mode asks for.
    pub open spec fn wf(self) -> bool {
        &&& self.inst == if self.prefixed {
            cb_entry(self.opcode)
        } else {
            base_entry(self.opcode)
        }
        &&& self.prefixed || self.opcode != 0xCB
        &&& match self.inst.mode {
            AddressingMode::D8 | AddressingMode::HL_SPR => self.operand is Offset,
            AddressingMode::R_D8
            | AddressingMode::MR_D8
            | AddressingMode::A8_R
            | AddressingMode::R_A8 => self.operand is Byte,
            AddressingMode::R_D16
            | AddressingMode::D16
            | AddressingMode::A16_R
            | AddressingMode::R_A16 => self.operand is Word,
            _ => self.operand is Absent,
        }
    }
}

/// Reads the operand that `mode` asks for at `addr`.
fn fetch_operand<M: Mmu>(mem: &M, addr: u16, mode: AddressingMode) -> (r: (Operand, u16))
    ensures
        r.0 == operand_at(*mem, addr, mode),
        r.1 == wrap16(addr + operand_len(mode)),
{
    match mode {
        AddressingMode::D8 | AddressingMode::HL_SPR => {
            let byte = mem.read(addr);
            assert(byte as i8 == (if byte < 0x80u8 { byte as i8 } else { (byte - 0x100) as i8 }))
                by (bit_vector);
            (Operand::Offset(byte as i8), addr.wrapping_add(1))
        },
        AddressingMode::R_D8
        | AddressingMode::MR_D8
        | AddressingMode::A8_R
        | AddressingMode::R_A8 => (Operand::Byte(mem.read(addr)), addr.wrapping_add(1)),
        AddressingMode::R_D16
        | AddressingMode::D16
        | AddressingMode::A16_R
        | AddressingMode::R_A16 => (Operand::Word(read16(mem, addr)), addr.wrapping_add(2)),
        _ => (Operand::Absent, addr),
    }
}

/// Reads the instruction at the program counter; where `stalled` holds,
/// the program counter does not move past the first byte.
fn fetch<M: Mmu>(regs: &mut Registers, mem: &M, stalled: bool) -> (d: DecodedInstruction)
    ensures
        d == decoded_at(*mem, old(regs)@.pc, stalled),
        final(regs)@ == (RegisterState {
            pc: wrap16(
                old(regs)@.pc + d.len() - if stalled {
                    1int
                } else {
                    0
                },
            ),
            ..old(regs)@
        }),
{
    let pc = regs.read(RegType::PC);
    let first = mem.read(pc);
    let next = if stalled {
        pc
    } else {
        pc.wrapping_add(1)
    };
    if first == 0xCB {
        let second = mem.read(next);
        let inst = decode_cb_opcode(second);
        let (operand, after) = fetch_operand(mem, next.wrapping_add(1), inst.mode);
        regs.write(RegType::PC, after);
        DecodedInstruction { pc, opcode: second, prefixed: true, inst, operand }
    } else {
        let inst = decode_opcode(first);
        let (operand, after) = fetch_operand(mem, next, inst.mode);
        regs.write(RegType::PC, after);
        DecodedInstruction { pc, opcode: first, prefixed: false, inst, operand }
    }
}

/// Reads the instruction at the program counter and moves the program
/// counter past it.
pub fn fetch_and_decode<M: Mmu>(regs: &mut Registers, mem: &M) -> (d: DecodedInstruction)
    ensures
        d == decoded_at(*mem, old(regs)@.pc, false),
        final(regs)@ == (RegisterState { pc: wrap16(old(regs)@.pc + d.len()), ..old(regs)@ }),
{
    fetch(regs, mem, false)
}

/// Reads the instruction at the program counter as the processor does right
/// after a halt that did not take effect: the program counter fails to move
/// past the first byte, which is therefore read twice.
pub fn fetch_and_decode_stalled<M: Mmu>(regs: &mut Registers, mem: &M) -> (d: DecodedInstruction)
    ensures
        d == decoded_at(*mem, old(regs)@.pc, true),
        final(regs)@ == (RegisterState { pc: wrap16(old(regs)@.pc + d.len() - 1), ..old(regs)@ }),
{
    fetch(regs, mem, true)
}

/// Whatever memory holds, what is fetched is a descriptor of the tables with
/// the operand that its addressing mode asks for.
pub proof fn law_fetched_is_well_formed<M: Mmu>(mem: M, pc: u16, stalled: bool)
    ensures
        decoded_at(mem, pc, stalled).wf(),
        decoded_at(mem, pc, stalled).pc == pc,
{
    let d = decoded_at(mem, pc, stalled);
    crate::instructions::law_tables_hold_instructions(d.opcode);
}

} // verus!
