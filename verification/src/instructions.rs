//! The instruction descriptor tables: one descriptor for each opcode of the
//! base page and one for each opcode that follows the `0xCB` prefix.

use vstd::prelude::*;

pub use crate::registers::RegType;

mod base_table;
mod cb_table;

verus! {

/// What an instruction does.
#[allow(non_camel_case_types)]
#[derive(Debug, Copy, Clone, PartialEq, Eq, Structural)]
pub enum InstructionType {
    NONE,
    NOP,
    LD,
    INC,
    DEC,
    RLCA,
    ADD,
    RRCA,
    STOP,
    RLA,
    JR,
    RRA,
    DAA,
    CPL,
    SCF,
    CCF,
    HALT,
    ADC,
    SUB,
    SBC,
    AND,
    XOR,
    OR,
    CP,
    POP,
    JP,
    PUSH,
    RET,
    CB,
    CALL,
    RETI,
    LDH,
    JPHL,
    DI,
    EI,
    RST,
    ERR,
    RLC,
    RRC,
    RL,
    RR,
    SLA,
    SRA,
    SWAP,
    SRL,
    BIT,
    RES,
    SET,
}

impl Default for InstructionType {
    fn default() -> (kind: Self)
        ensures
            kind == InstructionType::NONE,
    {
        InstructionType::NONE
    }
}

impl Default for RegType {
    fn default() -> (r: Self)
        ensures
            r == RegType::NONE,
    {
        RegType::NONE
    }
}

/// Where an instruction finds its operands and how many bytes follow its
/// opcode. `R` is a register, `MR` the memory byte that a register points at,
/// `D8`/`D16` an immediate byte or word, `A8`/`A16` the memory byte at a
/// zero-page offset or at an absolute address; the destination comes first.
#[allow(non_camel_case_types)]
#[derive(Debug, Copy, Clone, PartialEq, Eq, Structural)]
pub enum AddressingMode {
    IMP,
    R_D16,
    R_R,
    MR_R,
    R,
    R_D8,
    A16_R,
    R_MR,
    R_A16,
    HLI_R,
    R_HLI,
    HLD_R,
    R_HLD,
    MR,
    MR_D8,
    A8_R,
    R_A8,
    HL_SPR,
    D8,
    D16,
    JPHL,
    CB,
}

impl Default for AddressingMode {
    fn default() -> (mode: Self)
        ensures
            mode == AddressingMode::IMP,
    {
        AddressingMode::IMP
    }
}

/// The condition under which a jump, call or return is taken.
#[allow(non_camel_case_types)]
#[derive(Debug, Copy, Clone, PartialEq, Eq, Structural)]
pub enum ConditionType {
    NONE,
    NZ,
    Z,
    NC,
    C,
}

impl Default for ConditionType {
    fn default() -> (cond: Self)
        ensures
            cond == ConditionType::NONE,
    {
        ConditionType::NONE
    }
}

/// The descriptor of one opcode.
#[derive(Debug, Copy, Clone, PartialEq, Eq, Structural)]
pub struct Instruction {
    pub instr_type: InstructionType,
    pub mode: AddressingMode,
    pub reg_1: RegType,
    pub reg_2: RegType,
    pub cond: ConditionType,
    /// The literal that the opcode carries: the target of a restart.
    pub param: Option<u8>,
}

impl Default for Instruction {
    fn default() -> (inst: Self)
        ensures
            inst == entry(InstructionType::NONE, AddressingMode::IMP, RegType::NONE, RegType::NONE),
    {
        Instruction {
            instr_type: InstructionType::NONE,
            mode: AddressingMode::IMP,
            reg_1: RegType::NONE,
            reg_2: RegType::NONE,
            cond: ConditionType::NONE,
            param: None,
        }
    }
}

impl Instruction {
    /// A descriptor with the given fields.
    pub fn new(
        instr_type: InstructionType,
        mode: AddressingMode,
        reg_1: RegType,
        reg_2: RegType,
        cond: ConditionType,
        param: Option<u8>,
    ) -> (inst: Self)
        ensures
            inst == (Instruction { instr_type, mode, reg_1, reg_2, cond, param }),
    {
        Self { instr_type, mode, reg_1, reg_2, cond, param }
    }
}

/// An unconditional descriptor without a literal.
pub open spec fn entry(
    instr_type: InstructionType,
    mode: AddressingMode,
    reg_1: RegType,
    reg_2: RegType,
) -> Instruction {
    Instruction { instr_type, mode, reg_1, reg_2, cond: ConditionType::NONE, param: None }
}

/// A descriptor that names no register and takes no operand.
pub open spec fn implied(instr_type: InstructionType) -> Instruction {
    entry(instr_type, AddressingMode::IMP, RegType::NONE, RegType::NONE)
}

/// A descriptor of a jump, call or return that names no register.
pub open spec fn branch(
    instr_type: InstructionType,
    mode: AddressingMode,
    cond: ConditionType,
) -> Instruction {
    Instruction { instr_type, mode, reg_1: RegType::NONE, reg_2: RegType::NONE, cond, param: None }
}

/// The one-byte operand that a three-bit field of an opcode selects; the
/// value 6 selects the memory byte at HL.
pub open spec fn byte_operand(field: int) -> RegType {
    if field == 0 {
        RegType::B
    } else if field == 1 {
        RegType::C
    } else if field == 2 {
        RegType::D
    } else if field == 3 {
        RegType::E
    } else if field == 4 {
        RegType::H
    } else if field == 5 {
        RegType::L
    } else if field == 6 {
        RegType::HL
    } else {
        RegType::A
    }
}

/// The register pair that a two-bit field selects in loads and arithmetic.
pub open spec fn pair_operand(field: int) -> RegType {
    if field == 0 {
        RegType::BC
    } else if field == 1 {
        RegType::DE
    } else if field == 2 {
        RegType::HL
    } else {
        RegType::SP
    }
}

/// The register pair that a two-bit field selects in pushes and pops.
pub open spec fn stack_operand(field: int) -> RegType {
    if field == 3 {
        RegType::AF
    } else {
        pair_operand(field)
    }
}

/// The condition that a two-bit field selects.
pub open spec fn condition(field: int) -> ConditionType {
    if field == 0 {
        ConditionType::NZ
    } else if field == 1 {
        ConditionType::Z
    } else if field == 2 {
        ConditionType::NC
    } else {
        ConditionType::C
    }
}

/// The accumulator operation that a three-bit field selects.
pub open spec fn accumulator_op(field: int) -> InstructionType {
    if field == 0 {
        InstructionType::ADD
    } else if field == 1 {
        InstructionType::ADC
    } else if field == 2 {
        InstructionType::SUB
    } else if field == 3 {
        InstructionType::SBC
    } else if field == 4 {
        InstructionType::AND
    } else if field == 5 {
        InstructionType::XOR
    } else if field == 6 {
        InstructionType::OR
    } else {
        InstructionType::CP
    }
}

/// The rotate or shift that a three-bit field selects behind the prefix.
pub open spec fn shift_op(field: int) -> InstructionType {
    if field == 0 {
        InstructionType::RLC
    } else if field == 1 {
        InstructionType::RRC
    } else if field == 2 {
        InstructionType::RL
    } else if field == 3 {
        InstructionType::RR
    } else if field == 4 {
        InstructionType::SLA
    } else if field == 5 {
        InstructionType::SRA
    } else if field == 6 {
        InstructionType::SWAP
    } else {
        InstructionType::SRL
    }
}

/// Opcodes `0x00..=0x3F`: loads of immediates, sixteen-bit arithmetic,
/// increments and decrements, relative jumps and the accumulator rotates.
/// `y` is bits 5..3 of the opcode and `z` bits 2..0.
pub open spec fn first_quarter(y: int, z: int) -> Instruction {
    let p = y / 2;
    let odd = y % 2 == 1;
    if z == 0 {
        if y == 0 {
            implied(InstructionType::NOP)
        } else if y == 1 {
            entry(InstructionType::LD, AddressingMode::A16_R, RegType::NONE, RegType::SP)
        } else if y == 2 {
            implied(InstructionType::STOP)
        } else if y == 3 {
            branch(InstructionType::JR, AddressingMode::D8, ConditionType::NONE)
        } else {
            branch(InstructionType::JR, AddressingMode::D8, condition(y - 4))
        }
    } else if z == 1 {
        if odd {
            entry(InstructionType::ADD, AddressingMode::R_R, RegType::HL, pair_operand(p))
        } else {
            entry(InstructionType::LD, AddressingMode::R_D16, pair_operand(p), RegType::NONE)
        }
    } else if z == 2 {
        let pointer = if p == 0 {
            RegType::BC
        } else if p == 1 {
            RegType::DE
        } else {
            RegType::HL
        };
        if odd {
            let mode = if p == 2 {
                AddressingMode::R_HLI
            } else if p == 3 {
                AddressingMode::R_HLD
            } else {
                AddressingMode::R_MR
            };
            entry(InstructionType::LD, mode, RegType::A, pointer)
        } else {
            let mode = if p == 2 {
                AddressingMode::HLI_R
            } else if p == 3 {
                AddressingMode::HLD_R
            } else {
                AddressingMode::MR_R
            };
            entry(InstructionType::LD, mode, pointer, RegType::A)
        }
    } else if z == 3 {
        entry(
            if odd {
                InstructionType::DEC
            } else {
                InstructionType::INC
            },
            AddressingMode::R,
            pair_operand(p),
            RegType::NONE,
        )
    } else if z == 4 || z == 5 {
        entry(
            if z == 4 {
                InstructionType::INC
            } else {
                InstructionType::DEC
            },
            if y == 6 {
                AddressingMode::MR
            } else {
                AddressingMode::R
            },
            byte_operand(y),
            RegType::NONE,
        )
    } else if z == 6 {
        entry(
            InstructionType::LD,
            if y == 6 {
                AddressingMode::MR_D8
            } else {
                AddressingMode::R_D8
            },
            byte_operand(y),
            RegType::NONE,
        )
    } else {
        implied(
            if y == 0 {
                InstructionType::RLCA
            } else if y == 1 {
                InstructionType::RRCA
            } else if y == 2 {
                InstructionType::RLA
            } else if y == 3 {
                InstructionType::RRA
            } else if y == 4 {
                InstructionType::DAA
            } else if y == 5 {
                InstructionType::CPL
            } else if y == 6 {
                InstructionType::SCF
            } else {
                InstructionType::CCF
            },
        )
    }
}

/// Opcodes `0x40..=0x7F`: the one-byte loads between registers and the memory
/// byte at HL, with HALT in the place of a load from memory to memory.
pub open spec fn second_quarter(y: int, z: int) -> Instruction {
    if y == 6 && z == 6 {
        implied(InstructionType::HALT)
    } else if y == 6 {
        entry(InstructionType::LD, AddressingMode::MR_R, RegType::HL, byte_operand(z))
    } else if z == 6 {
        entry(InstructionType::LD, AddressingMode::R_MR, byte_operand(y), RegType::HL)
    } else {
        entry(InstructionType::LD, AddressingMode::R_R, byte_operand(y), byte_operand(z))
    }
}

/// Opcodes `0x80..=0xBF`: the accumulator against a register or the memory
/// byte at HL.
pub open spec fn third_quarter(y: int, z: int) -> Instruction {
    entry(
        accumulator_op(y),
        if z == 6 {
            AddressingMode::R_MR
        } else {
            AddressingMode::R_R
        },
        RegType::A,
        byte_operand(z),
    )
}

/// Opcodes `0xC0..=0xFF`: returns, jumps, calls, the stack, the zero-page and
/// absolute loads, the accumulator against an immediate byte, the restarts,
/// and the opcodes that the processor does not assign.
pub open spec fn fourth_quarter(y: int, z: int) -> Instruction {
    let p = y / 2;
    let odd = y % 2 == 1;
    if z == 0 {
        if y < 4 {
            branch(InstructionType::RET, AddressingMode::IMP, condition(y))
        } else if y == 4 {
            entry(InstructionType::LDH, AddressingMode::A8_R, RegType::NONE, RegType::A)
        } else if y == 5 {
            entry(InstructionType::ADD, AddressingMode::HL_SPR, RegType::SP, RegType::NONE)
        } else if y == 6 {
            entry(InstructionType::LDH, AddressingMode::R_A8, RegType::A, RegType::NONE)
        } else {
            entry(InstructionType::LD, AddressingMode::HL_SPR, RegType::HL, RegType::SP)
        }
    } else if z == 1 {
        if !odd {
            entry(InstructionType::POP, AddressingMode::R, stack_operand(p), RegType::NONE)
        } else if p == 0 {
            implied(InstructionType::RET)
        } else if p == 1 {
            implied(InstructionType::RETI)
        } else if p == 2 {
            entry(InstructionType::JP, AddressingMode::JPHL, RegType::HL, RegType::NONE)
        } else {
            entry(InstructionType::LD, AddressingMode::R_R, RegType::SP, RegType::HL)
        }
    } else if z == 2 {
        if y < 4 {
            branch(InstructionType::JP, AddressingMode::D16, condition(y))
        } else if y == 4 {
            entry(InstructionType::LD, AddressingMode::MR_R, RegType::C, RegType::A)
        } else if y == 5 {
            entry(InstructionType::LD, AddressingMode::A16_R, RegType::NONE, RegType::A)
        } else if y == 6 {
            entry(InstructionType::LD, AddressingMode::R_MR, RegType::A, RegType::C)
        } else {
            entry(InstructionType::LD, AddressingMode::R_A16, RegType::A, RegType::NONE)
        }
    } else if z == 3 {
        if y == 0 {
            branch(InstructionType::JP, AddressingMode::D16, ConditionType::NONE)
        } else if y == 1 {
            entry(InstructionType::CB, AddressingMode::CB, RegType::NONE, RegType::NONE)
        } else if y == 6 {
            implied(InstructionType::DI)
        } else if y == 7 {
            implied(InstructionType::EI)
        } else {
            implied(InstructionType::ERR)
        }
    } else if z == 4 {
        if y < 4 {
            branch(InstructionType::CALL, AddressingMode::D16, condition(y))
        } else {
            implied(InstructionType::ERR)
        }
    } else if z == 5 {
        if !odd {
            entry(InstructionType::PUSH, AddressingMode::R, stack_operand(p), RegType::NONE)
        } else if p == 0 {
            branch(InstructionType::CALL, AddressingMode::D16, ConditionType::NONE)
        } else {
            implied(InstructionType::ERR)
        }
    } else if z == 6 {
        entry(accumulator_op(y), AddressingMode::R_D8, RegType::A, RegType::NONE)
    } else {
        Instruction { param: Some((8 * y) as u8), ..implied(InstructionType::RST) }
    }
}

/// The descriptor of a base opcode, read off its three bit fields: bits 7..6
/// pick the quarter of the page, bits 5..3 and bits 2..0 the entry in it.
pub open spec fn base_entry(opcode: u8) -> Instruction {
    let x = opcode as int / 64;
    let y = (opcode as int / 8) % 8;
    let z = opcode as int % 8;
    if x == 0 {
        first_quarter(y, z)
    } else if x == 1 {
        second_quarter(y, z)
    } else if x == 2 {
        third_quarter(y, z)
    } else {
        fourth_quarter(y, z)
    }
}

/// The descriptor of an opcode behind the prefix: bits 7..6 pick between the
/// rotates and shifts, the bit tests, the bit resets and the bit sets, and
/// bits 2..0 the byte operated on. Bits 5..3 pick the rotate or shift, or
/// else number the bit; the descriptor carries no literal for it.
pub open spec fn cb_entry(opcode: u8) -> Instruction {
    let x = opcode as int / 64;
    let y = (opcode as int / 8) % 8;
    let z = opcode as int % 8;
    entry(
        if x == 0 {
            shift_op(y)
        } else if x == 1 {
            InstructionType::BIT
        } else if x == 2 {
            InstructionType::RES
        } else {
            InstructionType::SET
        },
        if z == 6 {
            AddressingMode::MR
        } else {
            AddressingMode::R
        },
        byte_operand(z),
        RegType::NONE,
    )
}

/// The number of the bit that a bit test, reset or set behind the prefix
/// works on.
pub open spec fn cb_bit_index(opcode: u8) -> u8 {
    ((opcode as int / 8) % 8) as u8
}

/// Whether the processor assigns no instruction to the base opcode.
pub open spec fn unassigned(opcode: u8) -> bool {
    opcode == 0xD3 || opcode == 0xDB || opcode == 0xDD || opcode == 0xE3 || opcode == 0xE4
        || opcode == 0xEB || opcode == 0xEC || opcode == 0xED || opcode == 0xF4 || opcode == 0xFC
        || opcode == 0xFD
}

/// The three bit fields of an opcode make up the opcode.
pub(crate) proof fn lemma_opcode_fields(opcode: u8)
    ensures
        opcode == 64 * (opcode as int / 64) + 8 * ((opcode as int / 8) % 8) + opcode as int % 8,
        0 <= opcode as int / 64 < 4,
        0 <= (opcode as int / 8) % 8 < 8,
        0 <= opcode as int % 8 < 8,
{
}

/// Looks up the descriptor of a base opcode.
pub fn decode_opcode(opcode: u8) -> (inst: Instruction)
    ensures
        inst == base_entry(opcode),
{
    match opcode {
        0x00..=0x0F => base_table::row_00(opcode),
        0x10..=0x1F => base_table::row_10(opcode),
        0x20..=0x2F => base_table::row_20(opcode),
        0x30..=0x3F => base_table::row_30(opcode),
        0x40..=0x4F => base_table::row_40(opcode),
        0x50..=0x5F => base_table::row_50(opcode),
        0x60..=0x6F => base_table::row_60(opcode),
        0x70..=0x7F => base_table::row_70(opcode),
        0x80..=0x8F => base_table::row_80(opcode),
        0x90..=0x9F => base_table::row_90(opcode),
        0xA0..=0xAF => base_table::row_a0(opcode),
        0xB0..=0xBF => base_table::row_b0(opcode),
        0xC0..=0xCF => base_table::row_c0(opcode),
        0xD0..=0xDF => base_table::row_d0(opcode),
        0xE0..=0xEF => base_table::row_e0(opcode),
        _ => base_table::row_f0(opcode),
    }
}

/// Looks up the descriptor of an opcode that follows the `0xCB` prefix.
pub fn decode_cb_opcode(opcode: u8) -> (inst: Instruction)
    ensures
        inst == cb_entry(opcode),
{
    match opcode {
        0x00..=0x0F => cb_table::row_00(opcode),
        0x10..=0x1F => cb_table::row_10(opcode),
        0x20..=0x2F => cb_table::row_20(opcode),
        0x30..=0x3F => cb_table::row_30(opcode),
        0x40..=0x4F => cb_table::row_40(opcode),
        0x50..=0x5F => cb_table::row_50(opcode),
        0x60..=0x6F => cb_table::row_60(opcode),
        0x70..=0x7F => cb_table::row_70(opcode),
        0x80..=0x8F => cb_table::row_80(opcode),
        0x90..=0x9F => cb_table::row_90(opcode),
        0xA0..=0xAF => cb_table::row_a0(opcode),
        0xB0..=0xBF => cb_table::row_b0(opcode),
        0xC0..=0xCF => cb_table::row_c0(opcode),
        0xD0..=0xDF => cb_table::row_d0(opcode),
        0xE0..=0xEF => cb_table::row_e0(opcode),
        _ => cb_table::row_f0(opcode),
    }
}

/// The whole base table, indexed by opcode.
pub fn instruction_table() -> (table: Vec<Instruction>)
    ensures
        table@.len() == 0x100,
        forall|opcode: u8| table@[opcode as int] == base_entry(opcode),
{
    let mut table: Vec<Instruction> = Vec::with_capacity(0x100);
    let mut opcode: u8 = 0;
    while opcode < 0xFF
        invariant
            table@.len() == opcode,
            forall|k: u8| k < opcode ==> table@[k as int] == base_entry(k),
        decreases 0xFF - opcode,
    {
        table.push(decode_opcode(opcode));
        opcode += 1;
    }
    table.push(decode_opcode(opcode));
    table
}

/// The whole table of the opcodes that follow the `0xCB` prefix, indexed by
/// opcode.
pub fn cb_instruction_table() -> (table: Vec<Instruction>)
    ensures
        table@.len() == 0x100,
        forall|opcode: u8| table@[opcode as int] == cb_entry(opcode),
{
    let mut table: Vec<Instruction> = Vec::with_capacity(0x100);
    let mut opcode: u8 = 0;
    while opcode < 0xFF
        invariant
            table@.len() == opcode,
            forall|k: u8| k < opcode ==> table@[k as int] == cb_entry(k),
        decreases 0xFF - opcode,
    {
        table.push(decode_cb_opcode(opcode));
        opcode += 1;
    }
    table.push(decode_cb_opcode(opcode));
    table
}

/// The base table gives the invalid kind to exactly the eleven opcodes that
/// the processor leaves unassigned, and such an entry names no register, no
/// condition and no literal.
pub proof fn law_unassigned_opcodes(opcode: u8)
    ensures
        base_entry(opcode).instr_type is ERR <==> unassigned(opcode),
        unassigned(opcode) ==> base_entry(opcode) == implied(InstructionType::ERR),
{
    lemma_opcode_fields(opcode);
}

/// No opcode maps to the absent kind, only the prefix itself maps to the
/// prefix marker, and no opcode behind the prefix is invalid.
pub proof fn law_tables_hold_instructions(opcode: u8)
    ensures
        !(base_entry(opcode).instr_type is NONE),
        base_entry(opcode).instr_type is CB <==> opcode == 0xCB,
        base_entry(opcode).mode is CB <==> opcode == 0xCB,
        !(cb_entry(opcode).instr_type is NONE),
        !(cb_entry(opcode).instr_type is ERR),
        !(cb_entry(opcode).instr_type is CB),
        cb_entry(opcode).mode is R || cb_entry(opcode).mode is MR,
{
    lemma_opcode_fields(opcode);
}

} // verus!
