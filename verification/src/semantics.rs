//! What each instruction does to the registers and to memory, stated on the
//! mathematical model of the register file and on the memory's own
//! description of its reads and writes.

use vstd::prelude::*;
use crate::alu::{
    bit_cleared, bit_raised, bit_tested, carry_flipped, carry_set, complemented, conjunction8,
    decimal_adjusted, decremented8, difference8, disjunction8, displaced16, exclusive8,
    incremented8, rotated_left, rotated_left_through, rotated_right, rotated_right_through,
    shifted_left, shifted_right, shifted_right_signed, sum16, sum8, swapped,
};
use crate::decode::DecodedInstruction;
use crate::instructions::{
    cb_bit_index, lemma_opcode_fields, AddressingMode, ConditionType, InstructionType,
};
use crate::memory::{peek16, poke16, FlatMemory, Mmu};
use crate::registers::{
    high, lemma_flag_byte, lemma_store_what_was_read, low, wrap16, CpuFlag, Flags, RegType,
    RegisterState,
};

verus! {

/// Whether the condition holds of the flags.
pub open spec fn condition_holds(s: RegisterState, cond: ConditionType) -> bool {
    match cond {
        ConditionType::NONE => true,
        ConditionType::NZ => !s.flag(CpuFlag::Z),
        ConditionType::Z => s.flag(CpuFlag::Z),
        ConditionType::NC => !s.flag(CpuFlag::C),
        ConditionType::C => s.flag(CpuFlag::C),
    }
}

/// The address that a register designates: a pair points where its value
/// says, a single register into the zero page at `0xFF00` plus its value.
pub open spec fn pointer(s: RegisterState, r: RegType) -> u16 {
    if r.is_wide() {
        s.read(r)
    } else {
        (0xFF00 + low(s.read(r))) as u16
    }
}

/// Whether the addressing mode has its destination in memory.
pub open spec fn writes_memory(mode: AddressingMode) -> bool {
    mode is MR_R || mode is MR || mode is MR_D8 || mode is HLI_R || mode is HLD_R || mode is A8_R
        || mode is A16_R
}

/// The address of the memory operand, for the addressing modes that have one.
pub open spec fn effective_address(s: RegisterState, d: DecodedInstruction) -> u16 {
    match d.inst.mode {
        AddressingMode::MR_R | AddressingMode::MR | AddressingMode::MR_D8 => pointer(
            s,
            d.inst.reg_1,
        ),
        AddressingMode::R_MR => pointer(s, d.inst.reg_2),
        AddressingMode::HLI_R
        | AddressingMode::HLD_R
        | AddressingMode::R_HLI
        | AddressingMode::R_HLD => s.hl(),
        AddressingMode::A8_R | AddressingMode::R_A8 => (0xFF00 + d.operand.byte()) as u16,
        AddressingMode::A16_R | AddressingMode::R_A16 => d.operand.word(),
        _ => 0,
    }
}

/// The byte that the instruction takes as its operand: a register, the
/// immediate byte, or the memory byte that the addressing mode points at.
pub open spec fn source8<M: Mmu>(s: RegisterState, m: M, d: DecodedInstruction) -> u8 {
    match d.inst.mode {
        AddressingMode::R => low(s.read(d.inst.reg_1)),
        AddressingMode::R_R
        | AddressingMode::MR_R
        | AddressingMode::HLI_R
        | AddressingMode::HLD_R
        | AddressingMode::A8_R
        | AddressingMode::A16_R => low(s.read(d.inst.reg_2)),
        AddressingMode::R_D8 | AddressingMode::MR_D8 => d.operand.byte(),
        AddressingMode::R_MR
        | AddressingMode::R_HLI
        | AddressingMode::R_HLD
        | AddressingMode::R_A8
        | AddressingMode::R_A16
        | AddressingMode::MR => m.peek(effective_address(s, d)),
        _ => 0,
    }
}

/// Registers and memory after the byte `v` went to the instruction's
/// destination: the memory operand where the mode has its destination in
/// memory, else the first register.
pub open spec fn stored8<M: Mmu>(s: RegisterState, m: M, d: DecodedInstruction, v: u8) -> (
    RegisterState,
    M,
) {
    if writes_memory(d.inst.mode) {
        (s, m.poke(effective_address(s, d), v))
    } else {
        (s.write(d.inst.reg_1, v as u16), m)
    }
}

/// The registers after the step that the addressing mode makes HL take.
pub open spec fn auto_stepped(s: RegisterState, mode: AddressingMode) -> RegisterState {
    match mode {
        AddressingMode::HLI_R | AddressingMode::R_HLI => s.with_hl(wrap16(s.hl() + 1)),
        AddressingMode::HLD_R | AddressingMode::R_HLD => s.with_hl(wrap16(s.hl() - 1)),
        _ => s,
    }
}

/// Registers and memory after `v` was pushed: the stack pointer goes down by
/// two, the high byte lands just below the old stack pointer and the low byte
/// below that, written in this order.
pub open spec fn pushed16<M: Mmu>(s: RegisterState, m: M, v: u16) -> (RegisterState, M) {
    (
        RegisterState { sp: wrap16(s.sp - 2), ..s },
        m.poke(wrap16(s.sp - 1), high(v)).poke(wrap16(s.sp - 2), low(v)),
    )
}

/// The word on top of the stack, and the registers after it was popped.
pub open spec fn popped16<M: Mmu>(s: RegisterState, m: M) -> (u16, RegisterState) {
    (peek16(m, s.sp), RegisterState { sp: wrap16(s.sp + 2), ..s })
}

/// The load instructions: data moves and no flag changes, but for the load
/// of the displaced stack pointer, which sets the flags of its addition.
pub open spec fn loaded<M: Mmu>(s: RegisterState, m: M, d: DecodedInstruction) -> (
    RegisterState,
    M,
) {
    match d.inst.mode {
        AddressingMode::HL_SPR => {
            let (v, flags) = displaced16(s.read(d.inst.reg_2), d.operand.offset());
            (s.write(d.inst.reg_1, v).with_flags(flags), m)
        },
        AddressingMode::R_D16 => (s.write(d.inst.reg_1, d.operand.word()), m),
        AddressingMode::R_R => (s.write(d.inst.reg_1, s.read(d.inst.reg_2)), m),
        AddressingMode::A16_R if d.inst.reg_2.is_wide() => (
            s,
            poke16(m, d.operand.word(), s.read(d.inst.reg_2)),
        ),
        _ => {
            let (s1, m1) = stored8(s, m, d, source8(s, m, d));
            (auto_stepped(s1, d.inst.mode), m1)
        },
    }
}

/// A byte, in a register or in memory, after an increment or a decrement
/// modulo 2^8, which sets zero, subtract and half carry.
pub open spec fn counted_byte<M: Mmu>(s: RegisterState, m: M, d: DecodedInstruction, up: bool) -> (
    RegisterState,
    M,
) {
    let (v, flags) = if up {
        incremented8(source8(s, m, d), s.flags())
    } else {
        decremented8(source8(s, m, d), s.flags())
    };
    let (s1, m1) = stored8(s, m, d, v);
    (s1.with_flags(flags), m1)
}

/// Increment and decrement: a register pair steps modulo 2^16 and no flag
/// changes; anything else steps as a byte.
pub open spec fn counted<M: Mmu>(s: RegisterState, m: M, d: DecodedInstruction, up: bool) -> (
    RegisterState,
    M,
) {
    if d.inst.mode is R && d.inst.reg_1.is_wide() {
        let v = s.read(d.inst.reg_1);
        (
            s.write(
                d.inst.reg_1,
                if up {
                    wrap16(v + 1)
                } else {
                    wrap16(v - 1)
                },
            ),
            m,
        )
    } else {
        counted_byte(s, m, d, up)
    }
}

/// What an arithmetic or logic instruction makes of the accumulator and its
/// operand.
pub open spec fn accumulator_result(kind: InstructionType, a: u8, x: u8, carry: bool) -> (
    u8,
    Flags,
) {
    match kind {
        InstructionType::ADD => sum8(a, x, false),
        InstructionType::ADC => sum8(a, x, carry),
        InstructionType::SUB | InstructionType::CP => difference8(a, x, false),
        InstructionType::SBC => difference8(a, x, carry),
        InstructionType::AND => conjunction8(a, x),
        InstructionType::XOR => exclusive8(a, x),
        _ => disjunction8(a, x),
    }
}

/// The arithmetic and logic instructions on the accumulator. A compare sets
/// the flags of a subtraction and keeps the accumulator.
pub open spec fn accumulated<M: Mmu>(s: RegisterState, m: M, d: DecodedInstruction) -> RegisterState {
    let (v, flags) = accumulator_result(
        d.inst.instr_type,
        s.a,
        source8(s, m, d),
        s.flag(CpuFlag::C),
    );
    if d.inst.instr_type is CP {
        s.with_flags(flags)
    } else {
        (RegisterState { a: v, ..s }).with_flags(flags)
    }
}

/// Addition: of a displacement to the stack pointer, of a pair to a pair, or
/// of a byte to the accumulator.
pub open spec fn added<M: Mmu>(s: RegisterState, m: M, d: DecodedInstruction) -> RegisterState {
    if d.inst.mode is HL_SPR {
        let (v, flags) = displaced16(s.read(d.inst.reg_1), d.operand.offset());
        s.write(d.inst.reg_1, v).with_flags(flags)
    } else if d.inst.reg_1.is_wide() {
        let (v, flags) = sum16(s.read(d.inst.reg_1), s.read(d.inst.reg_2), s.flags());
        s.write(d.inst.reg_1, v).with_flags(flags)
    } else {
        accumulated(s, m, d)
    }
}

/// The four rotates of the accumulator; zero comes out clear.
pub open spec fn accumulator_rotated(s: RegisterState, kind: InstructionType) -> RegisterState {
    let (v, flags) = match kind {
        InstructionType::RLCA => rotated_left(s.a),
        InstructionType::RRCA => rotated_right(s.a),
        InstructionType::RLA => rotated_left_through(s.a, s.flag(CpuFlag::C)),
        _ => rotated_right_through(s.a, s.flag(CpuFlag::C)),
    };
    (RegisterState { a: v, ..s }).with_flags(Flags { z: false, ..flags })
}

/// What a rotate, shift or swap behind the prefix makes of a byte.
pub open spec fn shift_result(kind: InstructionType, x: u8, carry: bool) -> (u8, Flags) {
    match kind {
        InstructionType::RLC => rotated_left(x),
        InstructionType::RRC => rotated_right(x),
        InstructionType::RL => rotated_left_through(x, carry),
        InstructionType::RR => rotated_right_through(x, carry),
        InstructionType::SLA => shifted_left(x),
        InstructionType::SRA => shifted_right_signed(x),
        InstructionType::SWAP => swapped(x),
        _ => shifted_right(x),
    }
}

/// The rotates, shifts and the swap behind the prefix, on a register or on
/// the memory byte at HL.
pub open spec fn shifted<M: Mmu>(s: RegisterState, m: M, d: DecodedInstruction) -> (
    RegisterState,
    M,
) {
    let (v, flags) = shift_result(d.inst.instr_type, source8(s, m, d), s.flag(CpuFlag::C));
    let (s1, m1) = stored8(s, m, d, v);
    (s1.with_flags(flags), m1)
}

/// The bit instructions behind the prefix. The opcode numbers the bit. A
/// test changes flags only; a reset or a set changes the byte only.
pub open spec fn bit_operated<M: Mmu>(s: RegisterState, m: M, d: DecodedInstruction) -> (
    RegisterState,
    M,
) {
    let index = cb_bit_index(d.opcode);
    let x = source8(s, m, d);
    match d.inst.instr_type {
        InstructionType::BIT => (s.with_flags(bit_tested(x, index, s.flags())), m),
        InstructionType::RES => stored8(s, m, d, bit_cleared(x, index)),
        _ => stored8(s, m, d, bit_raised(x, index)),
    }
}

/// Where a jump goes: to the address in the named pair for the jump through
/// HL, else to the immediate address.
pub open spec fn jump_target(s: RegisterState, d: DecodedInstruction) -> u16 {
    if d.inst.instr_type is JPHL {
        s.hl()
    } else if d.inst.mode is JPHL {
        s.read(d.inst.reg_1)
    } else {
        d.operand.word()
    }
}

/// Jumps, calls, returns and restarts. The program counter already points
/// behind the instruction; that is the address a call or a restart pushes.
pub open spec fn branched<M: Mmu>(s: RegisterState, m: M, d: DecodedInstruction) -> (
    RegisterState,
    M,
) {
    if !condition_holds(s, d.inst.cond) {
        (s, m)
    } else {
        match d.inst.instr_type {
            InstructionType::JR => (
                RegisterState { pc: wrap16(s.pc + d.operand.offset()), ..s },
                m,
            ),
            InstructionType::CALL => {
                let (s1, m1) = pushed16(s, m, s.pc);
                (RegisterState { pc: d.operand.word(), ..s1 }, m1)
            },
            InstructionType::RST => {
                let (s1, m1) = pushed16(s, m, s.pc);
                (
                    RegisterState {
                        pc: match d.inst.param {
                            Some(target) => target as u16,
                            None => 0,
                        },
                        ..s1
                    },
                    m1,
                )
            },
            InstructionType::RET | InstructionType::RETI => {
                let (v, s1) = popped16(s, m);
                (RegisterState { pc: v, ..s1 }, m)
            },
            _ => (RegisterState { pc: jump_target(s, d), ..s }, m),
        }
    }
}

/// What the instruction does to the registers and to memory.
pub open spec fn transformed<M: Mmu>(s: RegisterState, m: M, d: DecodedInstruction) -> (
    RegisterState,
    M,
) {
    match d.inst.instr_type {
        InstructionType::LD | InstructionType::LDH => loaded(s, m, d),
        InstructionType::INC => counted(s, m, d, true),
        InstructionType::DEC => counted(s, m, d, false),
        InstructionType::ADD => (added(s, m, d), m),
        InstructionType::ADC
        | InstructionType::SUB
        | InstructionType::SBC
        | InstructionType::AND
        | InstructionType::XOR
        | InstructionType::OR
        | InstructionType::CP => (accumulated(s, m, d), m),
        InstructionType::RLCA
        | InstructionType::RRCA
        | InstructionType::RLA
        | InstructionType::RRA => (accumulator_rotated(s, d.inst.instr_type), m),
        InstructionType::DAA => {
            let (v, flags) = decimal_adjusted(s.a, s.flags());
            ((RegisterState { a: v, ..s }).with_flags(flags), m)
        },
        InstructionType::CPL => {
            let (v, flags) = complemented(s.a, s.flags());
            ((RegisterState { a: v, ..s }).with_flags(flags), m)
        },
        InstructionType::SCF => (s.with_flags(carry_set(s.flags())), m),
        InstructionType::CCF => (s.with_flags(carry_flipped(s.flags())), m),
        InstructionType::PUSH => pushed16(s, m, s.read(d.inst.reg_1)),
        InstructionType::POP => {
            let (v, s1) = popped16(s, m);
            (s1.write(d.inst.reg_1, v), m)
        },
        InstructionType::JP
        | InstructionType::JPHL
        | InstructionType::JR
        | InstructionType::CALL
        | InstructionType::RET
        | InstructionType::RETI
        | InstructionType::RST => branched(s, m, d),
        InstructionType::RLC
        | InstructionType::RRC
        | InstructionType::RL
        | InstructionType::RR
        | InstructionType::SLA
        | InstructionType::SRA
        | InstructionType::SWAP
        | InstructionType::SRL => shifted(s, m, d),
        InstructionType::BIT | InstructionType::RES | InstructionType::SET => bit_operated(
            s,
            m,
            d,
        ),
        _ => (s, m),
    }
}

/// What was pushed is popped again, and the stack pointer is back where it
/// was, on every memory that gives back the two bytes just written to it.
pub proof fn law_push_then_pop<M: Mmu>(s: RegisterState, m: M, v: u16)
    requires
        ({
            let (s1, m1) = pushed16(s, m, v);
            m1.peek(s1.sp) == low(v) && m1.peek(wrap16(s1.sp + 1)) == high(v)
        }),
    ensures
        ({
            let (s1, m1) = pushed16(s, m, v);
            popped16(s1, m1) == (v, s)
        }),
{
}

/// On the flat memory, a push of a register pair followed by a pop of the
/// same pair leaves every register as it was.
pub proof fn law_push_then_pop_on_flat_memory(
    s: RegisterState,
    m: FlatMemory,
    push: DecodedInstruction,
    pop: DecodedInstruction,
)
    requires
        s.wf(),
        push.inst.instr_type is PUSH,
        pop.inst.instr_type is POP,
        push.inst.reg_1 == pop.inst.reg_1,
        push.inst.reg_1.is_wide(),
    ensures
        ({
            let (s1, m1) = transformed(s, m, push);
            let (s2, m2) = transformed(s1, m1, pop);
            &&& s1.sp == wrap16(s.sp - 2)
            &&& s2 == s
            &&& m2 == m1
            &&& m1.peek(wrap16(s.sp - 1)) == high(s.read(push.inst.reg_1))
            &&& m1.peek(wrap16(s.sp - 2)) == low(s.read(push.inst.reg_1))
        }),
{
    let r = push.inst.reg_1;
    let v = s.read(r);
    let upper = wrap16(s.sp - 1);
    let lower = wrap16(s.sp - 2);
    let (s1, m1) = pushed16(s, m, v);
    m.lemma_contents(upper, high(v));
    m.poke(upper, high(v)).lemma_contents(lower, low(v));
    m1.lemma_contents(upper, 0);
    m1.lemma_contents(lower, 0);
    assert(m1.peek(lower) == low(v) && m1.peek(upper) == high(v));
    assert(wrap16(s1.sp + 1) == upper);
    law_push_then_pop(s, m, v);
    assert(popped16(s1, m1) == (v, s));
    lemma_store_what_was_read(s, r);
}

/// No load of the tables names the flag byte or AF as its destination.
proof fn lemma_loads_spare_the_flag_byte(d: DecodedInstruction)
    requires
        d.wf(),
        d.inst.instr_type is LD || d.inst.instr_type is LDH,
    ensures
        !(d.inst.reg_1 is F),
        !(d.inst.reg_1 is AF),
{
    lemma_opcode_fields(d.opcode);
}

/// A load moves data and leaves every flag as it was; the one exception is
/// the load of the displaced stack pointer.
pub proof fn law_loads_keep_flags<M: Mmu>(s: RegisterState, m: M, d: DecodedInstruction)
    requires
        d.wf(),
        d.inst.instr_type is LD || d.inst.instr_type is LDH,
        !(d.inst.mode is HL_SPR),
    ensures
        transformed(s, m, d).0.f == s.f,
{
    lemma_loads_spare_the_flag_byte(d);
}

/// An increment or decrement leaves carry as it was, whatever it steps.
pub proof fn law_counting_keeps_carry<M: Mmu>(s: RegisterState, m: M, d: DecodedInstruction)
    requires
        d.wf(),
        d.inst.instr_type is INC || d.inst.instr_type is DEC,
    ensures
        transformed(s, m, d).0.flag(CpuFlag::C) == s.flag(CpuFlag::C),
{
    lemma_opcode_fields(d.opcode);
    let up = d.inst.instr_type is INC;
    if !(d.inst.mode is R && d.inst.reg_1.is_wide()) {
        let flags = if up {
            incremented8(source8(s, m, d), s.flags()).1
        } else {
            decremented8(source8(s, m, d), s.flags()).1
        };
        lemma_flag_byte(flags);
        assert(counted_byte(s, m, d, up).0.f == flags.byte());
    }
}

/// An addition to a register pair leaves zero as it was.
pub proof fn law_wide_add_keeps_zero<M: Mmu>(s: RegisterState, m: M, d: DecodedInstruction)
    requires
        d.wf(),
        d.inst.instr_type is ADD,
        d.inst.reg_1.is_wide(),
        !(d.inst.mode is HL_SPR),
    ensures
        transformed(s, m, d).0.flag(CpuFlag::Z) == s.flag(CpuFlag::Z),
{
    lemma_flag_byte(sum16(s.read(d.inst.reg_1), s.read(d.inst.reg_2), s.flags()).1);
}

} // verus!
