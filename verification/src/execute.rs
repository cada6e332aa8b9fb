//! The execute engine: applies a decoded instruction to the registers, the
//! flags, the memory and the processor's mode, and steps the processor
//! through one fetch, decode and execute cycle.

use vstd::prelude::*;
use crate::alu::{
    add16, add8, add_offset, and8, ccf, cpl, daa, dec8, inc8, or8, reset_bit, rl, rlc, rr, rrc,
    scf, set_bit, sla, sra, srl, sub8, swap, test_bit, xor8,
};
use crate::cpu::{CpuContext, CpuState};
use crate::decode::{
    decoded_at, fetch_and_decode, fetch_and_decode_stalled, law_fetched_is_well_formed,
    DecodedInstruction,
};
use crate::instructions::{
    law_tables_hold_instructions, law_unassigned_opcodes, unassigned, AddressingMode,
    ConditionType, InstructionType,
};
use crate::interrupts::{pending, pending_interrupts};
use crate::memory::{read16, write16, Mmu};
use crate::registers::{high, low, wrap16, CpuFlag, Flags, RegType, RegisterState, Registers};
use crate::semantics::{
    accumulated, accumulator_rotated, added, auto_stepped, bit_operated, branched,
    condition_holds, counted, counted_byte, effective_address, loaded, pointer, popped16,
    pushed16, shifted, source8, stored8, transformed, writes_memory,
};

verus! {

/// Tests a condition against the flags.
fn check_condition(regs: &Registers, cond: ConditionType) -> (holds: bool)
    ensures
        holds == condition_holds(regs@, cond),
{
    match cond {
        ConditionType::NONE => true,
        ConditionType::NZ => !regs.getflag(&CpuFlag::Z),
        ConditionType::Z => regs.getflag(&CpuFlag::Z),
        ConditionType::NC => !regs.getflag(&CpuFlag::C),
        ConditionType::C => regs.getflag(&CpuFlag::C),
    }
}

/// The address that a register designates.
fn point(regs: &Registers, r: RegType) -> (addr: u16)
    ensures
        addr == pointer(regs@, r),
{
    if r.wide() {
        regs.read(r)
    } else {
        0xFF00 + (regs.read8(r) as u16)
    }
}

/// Whether the addressing mode has its destination in memory.
fn memory_destination(mode: AddressingMode) -> (b: bool)
    ensures
        b == writes_memory(mode),
{
    match mode {
        AddressingMode::MR_R
        | AddressingMode::MR
        | AddressingMode::MR_D8
        | AddressingMode::HLI_R
        | AddressingMode::HLD_R
        | AddressingMode::A8_R
        | AddressingMode::A16_R => true,
        _ => false,
    }
}

/// The address of the memory operand.
fn address(regs: &Registers, d: &DecodedInstruction) -> (addr: u16)
    ensures
        addr == effective_address(regs@, *d),
{
    match d.inst.mode {
        AddressingMode::MR_R | AddressingMode::MR | AddressingMode::MR_D8 => point(
            regs,
            d.inst.reg_1,
        ),
        AddressingMode::R_MR => point(regs, d.inst.reg_2),
        AddressingMode::HLI_R
        | AddressingMode::HLD_R
        | AddressingMode::R_HLI
        | AddressingMode::R_HLD => regs.hl(),
        AddressingMode::A8_R | AddressingMode::R_A8 => 0xFF00 + (d.operand.as_byte() as u16),
        AddressingMode::A16_R | AddressingMode::R_A16 => d.operand.as_word(),
        _ => 0,
    }
}

/// Reads the byte that the instruction takes as its operand.
fn source<M: Mmu>(regs: &Registers, mem: &M, d: &DecodedInstruction) -> (v: u8)
    ensures
        v == source8(regs@, *mem, *d),
{
    match d.inst.mode {
        AddressingMode::R => regs.read8(d.inst.reg_1),
        AddressingMode::R_R
        | AddressingMode::MR_R
        | AddressingMode::HLI_R
        | AddressingMode::HLD_R
        | AddressingMode::A8_R
        | AddressingMode::A16_R => regs.read8(d.inst.reg_2),
        AddressingMode::R_D8 | AddressingMode::MR_D8 => d.operand.as_byte(),
        AddressingMode::R_MR
        | AddressingMode::R_HLI
        | AddressingMode::R_HLD
        | AddressingMode::R_A8
        | AddressingMode::R_A16
        | AddressingMode::MR => mem.read(address(regs, d)),
        _ => 0,
    }
}

/// Writes a byte to the instruction's destination.
fn store<M: Mmu>(regs: &mut Registers, mem: &mut M, d: &DecodedInstruction, v: u8)
    ensures
        (final(regs)@, *final(mem)) == stored8(old(regs)@, *old(mem), *d, v),
        old(regs)@.wf() ==> final(regs)@.wf(),
{
    if memory_destination(d.inst.mode) {
        mem.write(address(regs, d), v);
    } else {
        regs.write(d.inst.reg_1, v as u16);
    }
}

/// Steps HL where the addressing mode asks for it.
fn auto_step(regs: &mut Registers, mode: AddressingMode)
    ensures
        final(regs)@ == auto_stepped(old(regs)@, mode),
{
    match mode {
        AddressingMode::HLI_R | AddressingMode::R_HLI => {
            regs.hli();
        },
        AddressingMode::HLD_R | AddressingMode::R_HLD => {
            regs.hld();
        },
        _ => {},
    }
}

/// Pushes a word: high byte first, at the higher address.
pub(crate) fn push16<M: Mmu>(regs: &mut Registers, mem: &mut M, v: u16)
    ensures
        (final(regs)@, *final(mem)) == pushed16(old(regs)@, *old(mem), v),
{
    let sp = regs.read(RegType::SP);
    let (hi, lo) = split(v);
    mem.write(sp.wrapping_sub(1), hi);
    mem.write(sp.wrapping_sub(2), lo);
    regs.write(RegType::SP, sp.wrapping_sub(2));
}

/// Pops a word.
fn pop16<M: Mmu>(regs: &mut Registers, mem: &M) -> (v: u16)
    ensures
        (v, final(regs)@) == popped16(old(regs)@, *mem),
{
    let sp = regs.read(RegType::SP);
    let v = read16(mem, sp);
    regs.write(RegType::SP, sp.wrapping_add(2));
    v
}

/// The high and the low byte of a word.
fn split(v: u16) -> (r: (u8, u8))
    ensures
        r == (high(v), low(v)),
{
    assert((v >> 8) as u8 == (v / 256) as u8 && (v & 0x00FF) as u8 == (v % 256) as u8)
        by (bit_vector);
    ((v >> 8) as u8, (v & 0x00FF) as u8)
}

/// The load instructions.
fn load<M: Mmu>(regs: &mut Registers, mem: &mut M, d: &DecodedInstruction)
    ensures
        (final(regs)@, *final(mem)) == loaded(old(regs)@, *old(mem), *d),
        old(regs)@.wf() ==> final(regs)@.wf(),
{
    match d.inst.mode {
        AddressingMode::HL_SPR => {
            let (v, flags) = add_offset(regs.read(d.inst.reg_2), d.operand.as_offset());
            regs.write(d.inst.reg_1, v);
            regs.set_flags(flags);
        },
        AddressingMode::R_D16 => regs.write(d.inst.reg_1, d.operand.as_word()),
        AddressingMode::R_R => {
            let v = regs.read(d.inst.reg_2);
            regs.write(d.inst.reg_1, v);
        },
        AddressingMode::A16_R if d.inst.reg_2.wide() => {
            write16(mem, d.operand.as_word(), regs.read(d.inst.reg_2));
        },
        _ => {
            let v = source(regs, mem, d);
            store(regs, mem, d, v);
            auto_step(regs, d.inst.mode);
        },
    }
}

/// Increment and decrement.
fn count<M: Mmu>(regs: &mut Registers, mem: &mut M, d: &DecodedInstruction, up: bool)
    ensures
        (final(regs)@, *final(mem)) == counted(old(regs)@, *old(mem), *d, up),
        old(regs)@.wf() ==> final(regs)@.wf(),
{
    if matches!(d.inst.mode, AddressingMode::R) && d.inst.reg_1.wide() {
        let v = regs.read(d.inst.reg_1);
        let stepped = if up {
            v.wrapping_add(1)
        } else {
            v.wrapping_sub(1)
        };
        regs.write(d.inst.reg_1, stepped);
    } else {
        count_byte(regs, mem, d, up);
    }
}

/// Steps the byte that the instruction names, in a register or in memory.
fn count_byte<M: Mmu>(regs: &mut Registers, mem: &mut M, d: &DecodedInstruction, up: bool)
    ensures
        (final(regs)@, *final(mem)) == counted_byte(old(regs)@, *old(mem), *d, up),
        final(regs)@.wf(),
{
    let x = source(regs, mem, d);
    let (v, flags) = if up {
        inc8(x, regs.flags())
    } else {
        dec8(x, regs.flags())
    };
    store(regs, mem, d, v);
    regs.set_flags(flags);
}

/// The arithmetic and logic instructions on the accumulator.
fn accumulate<M: Mmu>(regs: &mut Registers, mem: &M, d: &DecodedInstruction)
    ensures
        final(regs)@ == accumulated(old(regs)@, *mem, *d),
        final(regs)@.wf(),
{
    let a = regs.read8(RegType::A);
    let x = source(regs, mem, d);
    let carry = regs.getflag(&CpuFlag::C);
    let (v, flags) = match d.inst.instr_type {
        InstructionType::ADD => add8(a, x, false),
        InstructionType::ADC => add8(a, x, carry),
        InstructionType::SUB | InstructionType::CP => sub8(a, x, false),
        InstructionType::SBC => sub8(a, x, carry),
        InstructionType::AND => and8(a, x),
        InstructionType::XOR => xor8(a, x),
        _ => or8(a, x),
    };
    if !matches!(d.inst.instr_type, InstructionType::CP) {
        regs.write(RegType::A, v as u16);
    }
    regs.set_flags(flags);
}

/// Addition, to the stack pointer, to a pair or to the accumulator.
fn add_to<M: Mmu>(regs: &mut Registers, mem: &M, d: &DecodedInstruction)
    ensures
        final(regs)@ == added(old(regs)@, *mem, *d),
        final(regs)@.wf(),
{
    if matches!(d.inst.mode, AddressingMode::HL_SPR) {
        let (v, flags) = add_offset(regs.read(d.inst.reg_1), d.operand.as_offset());
        regs.write(d.inst.reg_1, v);
        regs.set_flags(flags);
    } else if d.inst.reg_1.wide() {
        let (v, flags) = add16(regs.read(d.inst.reg_1), regs.read(d.inst.reg_2), regs.flags());
        regs.write(d.inst.reg_1, v);
        regs.set_flags(flags);
    } else {
        accumulate(regs, mem, d);
    }
}

/// The four rotates of the accumulator.
fn rotate_accumulator(regs: &mut Registers, kind: InstructionType)
    ensures
        final(regs)@ == accumulator_rotated(old(regs)@, kind),
        final(regs)@.wf(),
{
    let a = regs.read8(RegType::A);
    let carry = regs.getflag(&CpuFlag::C);
    let (v, flags) = match kind {
        InstructionType::RLCA => rlc(a),
        InstructionType::RRCA => rrc(a),
        InstructionType::RLA => rl(a, carry),
        _ => rr(a, carry),
    };
    regs.write(RegType::A, v as u16);
    regs.set_flags(Flags { z: false, n: flags.n, h: flags.h, c: flags.c });
}

/// The rotates, shifts and the swap behind the prefix.
fn shift<M: Mmu>(regs: &mut Registers, mem: &mut M, d: &DecodedInstruction)
    ensures
        (final(regs)@, *final(mem)) == shifted(old(regs)@, *old(mem), *d),
        final(regs)@.wf(),
{
    let x = source(regs, mem, d);
    let carry = regs.getflag(&CpuFlag::C);
    let (v, flags) = match d.inst.instr_type {
        InstructionType::RLC => rlc(x),
        InstructionType::RRC => rrc(x),
        InstructionType::RL => rl(x, carry),
        InstructionType::RR => rr(x, carry),
        InstructionType::SLA => sla(x),
        InstructionType::SRA => sra(x),
        InstructionType::SWAP => swap(x),
        _ => srl(x),
    };
    store(regs, mem, d, v);
    regs.set_flags(flags);
}

/// The bit test, reset and set behind the prefix.
fn operate_bit<M: Mmu>(regs: &mut Registers, mem: &mut M, d: &DecodedInstruction)
    ensures
        (final(regs)@, *final(mem)) == bit_operated(old(regs)@, *old(mem), *d),
        old(regs)@.wf() ==> final(regs)@.wf(),
{
    let index = (d.opcode / 8) % 8;
    let x = source(regs, mem, d);
    match d.inst.instr_type {
        InstructionType::BIT => {
            let flags = test_bit(x, index, regs.flags());
            regs.set_flags(flags);
        },
        InstructionType::RES => store(regs, mem, d, reset_bit(x, index)),
        _ => store(regs, mem, d, set_bit(x, index)),
    }
}

/// Jumps, calls, returns and restarts.
fn jump<M: Mmu>(regs: &mut Registers, mem: &mut M, d: &DecodedInstruction)
    ensures
        (final(regs)@, *final(mem)) == branched(old(regs)@, *old(mem), *d),
        old(regs)@.wf() ==> final(regs)@.wf(),
{
    if !check_condition(regs, d.inst.cond) {
        return ;
    }
    match d.inst.instr_type {
        InstructionType::JR => {
            let pc = regs.read(RegType::PC);
            regs.write(RegType::PC, pc.wrapping_add_signed(d.operand.as_offset() as i16));
        },
        InstructionType::CALL => {
            let pc = regs.read(RegType::PC);
            push16(regs, mem, pc);
            regs.write(RegType::PC, d.operand.as_word());
        },
        InstructionType::RST => {
            let pc = regs.read(RegType::PC);
            push16(regs, mem, pc);
            regs.write(
                RegType::PC,
                match d.inst.param {
                    Some(target) => target as u16,
                    None => 0,
                },
            );
        },
        InstructionType::RET | InstructionType::RETI => {
            let v = pop16(regs, mem);
            regs.write(RegType::PC, v);
        },
        _ => {
            let target = if matches!(d.inst.instr_type, InstructionType::JPHL) {
                regs.hl()
            } else if matches!(d.inst.mode, AddressingMode::JPHL) {
                regs.read(d.inst.reg_1)
            } else {
                d.operand.as_word()
            };
            regs.write(RegType::PC, target);
        },
    }
}

/// Applies the instruction to the registers and to memory.
fn apply<M: Mmu>(regs: &mut Registers, mem: &mut M, d: &DecodedInstruction)
    ensures
        (final(regs)@, *final(mem)) == transformed(old(regs)@, *old(mem), *d),
        old(regs)@.wf() ==> final(regs)@.wf(),
{
    match d.inst.instr_type {
        InstructionType::LD | InstructionType::LDH => load(regs, mem, d),
        InstructionType::INC => count(regs, mem, d, true),
        InstructionType::DEC => count(regs, mem, d, false),
        InstructionType::ADD => add_to(regs, mem, d),
        InstructionType::ADC
        | InstructionType::SUB
        | InstructionType::SBC
        | InstructionType::AND
        | InstructionType::XOR
        | InstructionType::OR
        | InstructionType::CP => accumulate(regs, mem, d),
        InstructionType::RLCA
        | InstructionType::RRCA
        | InstructionType::RLA
        | InstructionType::RRA => rotate_accumulator(regs, d.inst.instr_type),
        InstructionType::DAA => {
            let (v, flags) = daa(regs.read8(RegType::A), regs.flags());
            regs.write(RegType::A, v as u16);
            regs.set_flags(flags);
        },
        InstructionType::CPL => {
            let (v, flags) = cpl(regs.read8(RegType::A), regs.flags());
            regs.write(RegType::A, v as u16);
            regs.set_flags(flags);
        },
        InstructionType::SCF => {
            let flags = scf(regs.flags());
            regs.set_flags(flags);
        },
        InstructionType::CCF => {
            let flags = ccf(regs.flags());
            regs.set_flags(flags);
        },
        InstructionType::PUSH => {
            let v = regs.read(d.inst.reg_1);
            push16(regs, mem, v);
        },
        InstructionType::POP => {
            let v = pop16(regs, mem);
            regs.write(d.inst.reg_1, v);
        },
        InstructionType::JP
        | InstructionType::JPHL
        | InstructionType::JR
        | InstructionType::CALL
        | InstructionType::RET
        | InstructionType::RETI
        | InstructionType::RST => jump(regs, mem, d),
        InstructionType::RLC
        | InstructionType::RRC
        | InstructionType::RL
        | InstructionType::RR
        | InstructionType::SLA
        | InstructionType::SRA
        | InstructionType::SWAP
        | InstructionType::SRL => shift(regs, mem, d),
        InstructionType::BIT | InstructionType::RES | InstructionType::SET => operate_bit(
            regs,
            mem,
            d,
        ),
        _ => {},
    }
}

/// A number of processor cycles.
pub type CycleCount = u8;

/// How many cycles each opcode takes. The numbers are the driver's to
/// supply; the processor only looks them up.
#[derive(Copy, Clone)]
pub struct CycleTable {
    /// Cycles of each base opcode; for a conditional jump, call or return,
    /// the cycles where it is not taken.
    pub base: [u8; 256],
    /// Cycles of each base opcode where it is a conditional jump, call or
    /// return that is taken.
    pub taken: [u8; 256],
    /// Cycles of each opcode behind the prefix, the prefix included.
    pub prefixed: [u8; 256],
}

impl CycleTable {
    /// The cycles that the table gives for an instruction.
    pub open spec fn cost(self, d: DecodedInstruction, taken: bool) -> CycleCount {
        if d.prefixed {
            self.prefixed[d.opcode as int]
        } else if taken {
            self.taken[d.opcode as int]
        } else {
            self.base[d.opcode as int]
        }
    }

    /// Looks up the cycles of an instruction.
    pub fn lookup(&self, d: &DecodedInstruction, taken: bool) -> (cycles: CycleCount)
        ensures
            cycles == self.cost(*d, taken),
    {
        if d.prefixed {
            self.prefixed[d.opcode as usize]
        } else if taken {
            self.taken[d.opcode as usize]
        } else {
            self.base[d.opcode as usize]
        }
    }
}

/// The signal that an instruction cannot be executed: the opcode and the
/// address it was fetched from.
#[derive(Copy, Clone, Debug, PartialEq, Eq, Structural)]
pub struct IllegalInstruction {
    pub opcode: u8,
    pub pc: u16,
}

/// Whether the descriptor stands for no instruction: the invalid kind of the
/// unassigned opcodes, the absent kind, or the prefix marker.
pub open spec fn illegal(d: DecodedInstruction) -> bool {
    d.inst.instr_type is ERR || d.inst.instr_type is NONE || d.inst.instr_type is CB
}

/// Whether the instruction is conditional and its condition holds.
pub open spec fn branch_taken(s: RegisterState, d: DecodedInstruction) -> bool {
    !(d.inst.cond is NONE) && condition_holds(s, d.inst.cond)
}

/// The processor and memory after a legal instruction has run. An enable
/// that EI asked for takes effect only now, after the instruction that
/// followed it; DI and RETI take effect at once. A HALT with interrupts
/// disabled and a request pending does not halt, and makes the next fetch
/// stall instead.
pub open spec fn executed<M: Mmu>(c: CpuState, m: M, d: DecodedInstruction) -> (CpuState, M) {
    let (regs, mem) = transformed(c.regs, m, d);
    let kind = d.inst.instr_type;
    let slips = kind is HALT && !c.ime && pending_interrupts(m) != 0;
    (
        CpuState {
            regs,
            halted: c.halted || (kind is HALT && !slips),
            stopped: c.stopped || kind is STOP,
            ime: if kind is DI {
                false
            } else if kind is RETI || c.ime_pending {
                true
            } else {
                c.ime
            },
            ime_pending: kind is EI,
            halt_bug: c.halt_bug || slips,
        },
        mem,
    )
}

/// What `execute` makes of the processor and memory, and what it returns: an
/// illegal instruction changes nothing and is reported with its opcode and
/// address; any other runs and costs what the table says.
pub open spec fn outcome<M: Mmu>(c: CpuState, m: M, d: DecodedInstruction, t: CycleTable) -> (
    CpuState,
    M,
    Result<CycleCount, IllegalInstruction>,
) {
    if illegal(d) {
        (c, m, Err(IllegalInstruction { opcode: d.opcode, pc: d.pc }))
    } else {
        let (c1, m1) = executed(c, m, d);
        (c1, m1, Ok(t.cost(d, branch_taken(c.regs, d))))
    }
}

/// Executes one decoded instruction and returns the cycles it took. Every
/// decoded instruction is accepted: one that stands for no instruction is
/// reported and changes nothing.
pub fn execute<M: Mmu>(
    cpu: &mut CpuContext,
    mem: &mut M,
    decoded: DecodedInstruction,
    timing: &CycleTable,
) -> (r: Result<CycleCount, IllegalInstruction>)
    ensures
        (final(cpu)@, *final(mem), r) == outcome(old(cpu)@, *old(mem), decoded, *timing),
        old(cpu)@.regs.wf() ==> final(cpu)@.regs.wf(),
{
    let d = &decoded;
    let kind = d.inst.instr_type;
    if matches!(kind, InstructionType::ERR | InstructionType::NONE | InstructionType::CB) {
        return Err(IllegalInstruction { opcode: d.opcode, pc: d.pc });
    }
    let taken = !matches!(d.inst.cond, ConditionType::NONE) && check_condition(
        &cpu.regs,
        d.inst.cond,
    );
    let enable = cpu.ime_pending;
    cpu.ime_pending = false;
    match kind {
        InstructionType::HALT => {
            if !cpu.ime && pending(mem) != 0 {
                cpu.halt_bug = true;
            } else {
                cpu.halted = true;
            }
        },
        InstructionType::STOP => {
            cpu.stopped = true;
        },
        InstructionType::EI => {
            cpu.ime_pending = true;
        },
        _ => {
            apply(&mut cpu.regs, mem, d);
        },
    }
    if matches!(kind, InstructionType::DI) {
        cpu.ime = false;
    } else if enable || matches!(kind, InstructionType::RETI) {
        cpu.ime = true;
    }
    Ok(timing.lookup(d, taken))
}

/// What the fetch leaves of the processor: the program counter behind the
/// instruction, and no stall left over.
pub open spec fn fetched(c: CpuState, d: DecodedInstruction) -> CpuState {
    CpuState {
        regs: RegisterState {
            pc: wrap16(
                c.regs.pc + d.len() - if c.halt_bug {
                    1int
                } else {
                    0
                },
            ),
            ..c.regs
        },
        halt_bug: false,
        ..c
    }
}

/// What `step` makes of the processor and memory, and what it returns. A
/// stopped or halted processor stays as it is, for the cycles of its STOP or
/// HALT; a running one fetches the instruction at the program counter and
/// executes it.
pub open spec fn stepped<M: Mmu>(c: CpuState, m: M, t: CycleTable) -> (
    CpuState,
    M,
    Result<CycleCount, IllegalInstruction>,
) {
    if c.stopped {
        (c, m, Ok(t.base[0x10]))
    } else if c.halted {
        (c, m, Ok(t.base[0x76]))
    } else {
        let d = decoded_at(m, c.regs.pc, c.halt_bug);
        outcome(fetched(c, d), m, d, t)
    }
}

/// Runs one fetch, decode and execute cycle and returns the cycles it took.
pub fn step<M: Mmu>(cpu: &mut CpuContext, mem: &mut M, timing: &CycleTable) -> (r: Result<
    CycleCount,
    IllegalInstruction,
>)
    ensures
        (final(cpu)@, *final(mem), r) == stepped(old(cpu)@, *old(mem), *timing),
        old(cpu)@.regs.wf() ==> final(cpu)@.regs.wf(),
{
    if cpu.stopped {
        return Ok(timing.base[0x10]);
    }
    if cpu.halted {
        return Ok(timing.base[0x76]);
    }
    let d = if cpu.halt_bug {
        cpu.halt_bug = false;
        fetch_and_decode_stalled(&mut cpu.regs, mem)
    } else {
        fetch_and_decode(&mut cpu.regs, mem)
    };
    execute(cpu, mem, d, timing)
}

/// Of what a fetch produces, exactly the eleven unassigned base opcodes are
/// illegal to execute.
pub proof fn law_only_unassigned_opcodes_are_illegal(d: DecodedInstruction)
    requires
        d.wf(),
    ensures
        illegal(d) <==> !d.prefixed && unassigned(d.opcode),
{
    law_unassigned_opcodes(d.opcode);
    law_tables_hold_instructions(d.opcode);
}

/// EI does not itself turn the master enable on; the instruction after it
/// does, unless that instruction is DI.
pub proof fn law_enable_is_deferred<M: Mmu>(
    c: CpuState,
    m: M,
    enable: DecodedInstruction,
    next: DecodedInstruction,
)
    requires
        enable.inst.instr_type is EI,
        !illegal(next),
    ensures
        ({
            let (c1, m1) = executed(c, m, enable);
            let (c2, m2) = executed(c1, m1, next);
            &&& c1.ime == (c.ime || c.ime_pending)
            &&& c1.regs == c.regs
            &&& m1 == m
            &&& c2.ime == !(next.inst.instr_type is DI)
        }),
{
}

/// A step of a running processor fails exactly where the byte at the
/// program counter is an unassigned opcode, and then reports that byte and
/// that address.
pub proof fn law_step_reports_the_unassigned_opcodes<M: Mmu>(c: CpuState, m: M, t: CycleTable)
    requires
        !c.stopped,
        !c.halted,
    ensures
        ({
            let opcode = m.peek(c.regs.pc);
            let result = stepped(c, m, t).2;
            if unassigned(opcode) {
                result == Err::<CycleCount, _>(IllegalInstruction { opcode, pc: c.regs.pc })
            } else {
                result is Ok
            }
        }),
{
    let d = decoded_at(m, c.regs.pc, c.halt_bug);
    law_fetched_is_well_formed(m, c.regs.pc, c.halt_bug);
    law_only_unassigned_opcodes_are_illegal(d);
}

} // verus!
