//! The rows of the base page, sixteen opcodes to a row, as the opcode chart
//! lays them out.

use vstd::prelude::*;
use crate::instructions::{
    base_entry, lemma_opcode_fields, AddressingMode as AM, ConditionType as CT, Instruction,
    InstructionType as IN, RegType as RT,
};

verus! {

/// The base opcodes `0x00..=0x0F`.
pub(crate) fn row_00(opcode: u8) -> (inst: Instruction)
    requires
        0x00 <= opcode <= 0x0F,
    ensures
        inst == base_entry(opcode),
{
    proof {
        lemma_opcode_fields(opcode);
    }
    match opcode {
        0x00 => Instruction::new(IN::NOP, AM::IMP, RT::NONE, RT::NONE, CT::NONE, None),  // NOP
        0x01 => Instruction::new(IN::LD, AM::R_D16, RT::BC, RT::NONE, CT::NONE, None),  // LD BC, d16
        0x02 => Instruction::new(IN::LD, AM::MR_R, RT::BC, RT::A, CT::NONE, None),  // LD (BC), A
        0x03 => Instruction::new(IN::INC, AM::R, RT::BC, RT::NONE, CT::NONE, None),  // INC BC
        0x04 => Instruction::new(IN::INC, AM::R, RT::B, RT::NONE, CT::NONE, None),  // INC B
        0x05 => Instruction::new(IN::DEC, AM::R, RT::B, RT::NONE, CT::NONE, None),  // DEC B
        0x06 => Instruction::new(IN::LD, AM::R_D8, RT::B, RT::NONE, CT::NONE, None),  // LD B, d8
        0x07 => Instruction::new(IN::RLCA, AM::IMP, RT::NONE, RT::NONE, CT::NONE, None),  // RLCA
        0x08 => Instruction::new(IN::LD, AM::A16_R, RT::NONE, RT::SP, CT::NONE, None),  // LD (a16), SP
        0x09 => Instruction::new(IN::ADD, AM::R_R, RT::HL, RT::BC, CT::NONE, None),  // ADD HL, BC
        0x0A => Instruction::new(IN::LD, AM::R_MR, RT::A, RT::BC, CT::NONE, None),  // LD A, (BC)
        0x0B => Instruction::new(IN::DEC, AM::R, RT::BC, RT::NONE, CT::NONE, None),  // DEC BC
        0x0C => Instruction::new(IN::INC, AM::R, RT::C, RT::NONE, CT::NONE, None),  // INC C
        0x0D => Instruction::new(IN::DEC, AM::R, RT::C, RT::NONE, CT::NONE, None),  // DEC C
        0x0E => Instruction::new(IN::LD, AM::R_D8, RT::C, RT::NONE, CT::NONE, None),  // LD C, d8
        _ => Instruction::new(IN::RRCA, AM::IMP, RT::NONE, RT::NONE, CT::NONE, None),  // 0x0F: RRCA
    }
}

/// The base opcodes `0x10..=0x1F`.
pub(crate) fn row_10(opcode: u8) -> (inst: Instruction)
    requires
        0x10 <= opcode <= 0x1F,
    ensures
        inst == base_entry(opcode),
{
    proof {
        lemma_opcode_fields(opcode);
    }
    match opcode {
        0x10 => Instruction::new(IN::STOP, AM::IMP, RT::NONE, RT::NONE, CT::NONE, None),  // STOP
        0x11 => Instruction::new(IN::LD, AM::R_D16, RT::DE, RT::NONE, CT::NONE, None),  // LD DE, d16
        0x12 => Instruction::new(IN::LD, AM::MR_R, RT::DE, RT::A, CT::NONE, None),  // LD (DE), A
        0x13 => Instruction::new(IN::INC, AM::R, RT::DE, RT::NONE, CT::NONE, None),  // INC DE
        0x14 => Instruction::new(IN::INC, AM::R, RT::D, RT::NONE, CT::NONE, None),  // INC D
        0x15 => Instruction::new(IN::DEC, AM::R, RT::D, RT::NONE, CT::NONE, None),  // DEC D
        0x16 => Instruction::new(IN::LD, AM::R_D8, RT::D, RT::NONE, CT::NONE, None),  // LD D, d8
        0x17 => Instruction::new(IN::RLA, AM::IMP, RT::NONE, RT::NONE, CT::NONE, None),  // RLA
        0x18 => Instruction::new(IN::JR, AM::D8, RT::NONE, RT::NONE, CT::NONE, None),  // JR r8
        0x19 => Instruction::new(IN::ADD, AM::R_R, RT::HL, RT::DE, CT::NONE, None),  // ADD HL, DE
        0x1A => Instruction::new(IN::LD, AM::R_MR, RT::A, RT::DE, CT::NONE, None),  // LD A, (DE)
        0x1B => Instruction::new(IN::DEC, AM::R, RT::DE, RT::NONE, CT::NONE, None),  // DEC DE
        0x1C => Instruction::new(IN::INC, AM::R, RT::E, RT::NONE, CT::NONE, None),  // INC E
        0x1D => Instruction::new(IN::DEC, AM::R, RT::E, RT::NONE, CT::NONE, None),  // DEC E
        0x1E => Instruction::new(IN::LD, AM::R_D8, RT::E, RT::NONE, CT::NONE, None),  // LD E, d8
        _ => Instruction::new(IN::RRA, AM::IMP, RT::NONE, RT::NONE, CT::NONE, None),  // 0x1F: RRA
    }
}

/// The base opcodes `0x20..=0x2F`.
pub(crate) fn row_20(opcode: u8) -> (inst: Instruction)
    requires
        0x20 <= opcode <= 0x2F,
    ensures
        inst == base_entry(opcode),
{
    proof {
        lemma_opcode_fields(opcode);
    }
    match opcode {
        0x20 => Instruction::new(IN::JR, AM::D8, RT::NONE, RT::NONE, CT::NZ, None),  // JR NZ, r8
        0x21 => Instruction::new(IN::LD, AM::R_D16, RT::HL, RT::NONE, CT::NONE, None),  // LD HL, d16
        0x22 => Instruction::new(IN::LD, AM::HLI_R, RT::HL, RT::A, CT::NONE, None),  // LD (HL+), A
        0x23 => Instruction::new(IN::INC, AM::R, RT::HL, RT::NONE, CT::NONE, None),  // INC HL
        0x24 => Instruction::new(IN::INC, AM::R, RT::H, RT::NONE, CT::NONE, None),  // INC H
        0x25 => Instruction::new(IN::DEC, AM::R, RT::H, RT::NONE, CT::NONE, None),  // DEC H
        0x26 => Instruction::new(IN::LD, AM::R_D8, RT::H, RT::NONE, CT::NONE, None),  // LD H, d8
        0x27 => Instruction::new(IN::DAA, AM::IMP, RT::NONE, RT::NONE, CT::NONE, None),  // DAA
        0x28 => Instruction::new(IN::JR, AM::D8, RT::NONE, RT::NONE, CT::Z, None),  // JR Z, r8
        0x29 => Instruction::new(IN::ADD, AM::R_R, RT::HL, RT::HL, CT::NONE, None),  // ADD HL, HL
        0x2A => Instruction::new(IN::LD, AM::R_HLI, RT::A, RT::HL, CT::NONE, None),  // LD A, (HL+)
        0x2B => Instruction::new(IN::DEC, AM::R, RT::HL, RT::NONE, CT::NONE, None),  // DEC HL
        0x2C => Instruction::new(IN::INC, AM::R, RT::L, RT::NONE, CT::NONE, None),  // INC L
        0x2D => Instruction::new(IN::DEC, AM::R, RT::L, RT::NONE, CT::NONE, None),  // DEC L
        0x2E => Instruction::new(IN::LD, AM::R_D8, RT::L, RT::NONE, CT::NONE, None),  // LD L, d8
        _ => Instruction::new(IN::CPL, AM::IMP, RT::NONE, RT::NONE, CT::NONE, None),  // 0x2F: CPL
    }
}

/// The base opcodes `0x30..=0x3F`.
pub(crate) fn row_30(opcode: u8) -> (inst: Instruction)
    requires
        0x30 <= opcode <= 0x3F,
    ensures
        inst == base_entry(opcode),
{
    proof {
        lemma_opcode_fields(opcode);
    }
    match opcode {
        0x30 => Instruction::new(IN::JR, AM::D8, RT::NONE, RT::NONE, CT::NC, None),  // JR NC, r8
        0x31 => Instruction::new(IN::LD, AM::R_D16, RT::SP, RT::NONE, CT::NONE, None),  // LD SP, d16
        0x32 => Instruction::new(IN::LD, AM::HLD_R, RT::HL, RT::A, CT::NONE, None),  // LD (HL-), A
        0x33 => Instruction::new(IN::INC, AM::R, RT::SP, RT::NONE, CT::NONE, None),  // INC SP
        0x34 => Instruction::new(IN::INC, AM::MR, RT::HL, RT::NONE, CT::NONE, None),  // INC (HL)
        0x35 => Instruction::new(IN::DEC, AM::MR, RT::HL, RT::NONE, CT::NONE, None),  // DEC (HL)
        0x36 => Instruction::new(IN::LD, AM::MR_D8, RT::HL, RT::NONE, CT::NONE, None),  // LD (HL), d8
        0x37 => Instruction::new(IN::SCF, AM::IMP, RT::NONE, RT::NONE, CT::NONE, None),  // SCF
        0x38 => Instruction::new(IN::JR, AM::D8, RT::NONE, RT::NONE, CT::C, None),  // JR C, r8
        0x39 => Instruction::new(IN::ADD, AM::R_R, RT::HL, RT::SP, CT::NONE, None),  // ADD HL, SP
        0x3A => Instruction::new(IN::LD, AM::R_HLD, RT::A, RT::HL, CT::NONE, None),  // LD A, (HL-)
        0x3B => Instruction::new(IN::DEC, AM::R, RT::SP, RT::NONE, CT::NONE, None),  // DEC SP
        0x3C => Instruction::new(IN::INC, AM::R, RT::A, RT::NONE, CT::NONE, None),  // INC A
        0x3D => Instruction::new(IN::DEC, AM::R, RT::A, RT::NONE, CT::NONE, None),  // DEC A
        0x3E => Instruction::new(IN::LD, AM::R_D8, RT::A, RT::NONE, CT::NONE, None),  // LD A, d8
        _ => Instruction::new(IN::CCF, AM::IMP, RT::NONE, RT::NONE, CT::NONE, None),  // 0x3F: CCF
    }
}

/// The base opcodes `0x40..=0x4F`.
pub(crate) fn row_40(opcode: u8) -> (inst: Instruction)
    requires
        0x40 <= opcode <= 0x4F,
    ensures
        inst == base_entry(opcode),
{
    proof {
        lemma_opcode_fields(opcode);
    }
    match opcode {
        0x40 => Instruction::new(IN::LD, AM::R_R, RT::B, RT::B, CT::NONE, None),  // LD B, B
        0x41 => Instruction::new(IN::LD, AM::R_R, RT::B, RT::C, CT::NONE, None),  // LD B, C
        0x42 => Instruction::new(IN::LD, AM::R_R, RT::B, RT::D, CT::NONE, None),  // LD B, D
        0x43 => Instruction::new(IN::LD, AM::R_R, RT::B, RT::E, CT::NONE, None),  // LD B, E
        0x44 => Instruction::new(IN::LD, AM::R_R, RT::B, RT::H, CT::NONE, None),  // LD B, H
        0x45 => Instruction::new(IN::LD, AM::R_R, RT::B, RT::L, CT::NONE, None),  // LD B, L
        0x46 => Instruction::new(IN::LD, AM::R_MR, RT::B, RT::HL, CT::NONE, None),  // LD B, (HL)
        0x47 => Instruction::new(IN::LD, AM::R_R, RT::B, RT::A, CT::NONE, None),  // LD B, A
        0x48 => Instruction::new(IN::LD, AM::R_R, RT::C, RT::B, CT::NONE, None),  // LD C, B
        0x49 => Instruction::new(IN::LD, AM::R_R, RT::C, RT::C, CT::NONE, None),  // LD C, C
        0x4A => Instruction::new(IN::LD, AM::R_R, RT::C, RT::D, CT::NONE, None),  // LD C, D
        0x4B => Instruction::new(IN::LD, AM::R_R, RT::C, RT::E, CT::NONE, None),  // LD C, E
        0x4C => Instruction::new(IN::LD, AM::R_R, RT::C, RT::H, CT::NONE, None),  // LD C, H
        0x4D => Instruction::new(IN::LD, AM::R_R, RT::C, RT::L, CT::NONE, None),  // LD C, L
        0x4E => Instruction::new(IN::LD, AM::R_MR, RT::C, RT::HL, CT::NONE, None),  // LD C, (HL)
        _ => Instruction::new(IN::LD, AM::R_R, RT::C, RT::A, CT::NONE, None),  // 0x4F: LD C, A
    }
}

/// The base opcodes `0x50..=0x5F`.
pub(crate) fn row_50(opcode: u8) -> (inst: Instruction)
    requires
        0x50 <= opcode <= 0x5F,
    ensures
        inst == base_entry(opcode),
{
    proof {
        lemma_opcode_fields(opcode);
    }
    match opcode {
        0x50 => Instruction::new(IN::LD, AM::R_R, RT::D, RT::B, CT::NONE, None),  // LD D, B
        0x51 => Instruction::new(IN::LD, AM::R_R, RT::D, RT::C, CT::NONE, None),  // LD D, C
        0x52 => Instruction::new(IN::LD, AM::R_R, RT::D, RT::D, CT::NONE, None),  // LD D, D
        0x53 => Instruction::new(IN::LD, AM::R_R, RT::D, RT::E, CT::NONE, None),  // LD D, E
        0x54 => Instruction::new(IN::LD, AM::R_R, RT::D, RT::H, CT::NONE, None),  // LD D, H
        0x55 => Instruction::new(IN::LD, AM::R_R, RT::D, RT::L, CT::NONE, None),  // LD D, L
        0x56 => Instruction::new(IN::LD, AM::R_MR, RT::D, RT::HL, CT::NONE, None),  // LD D, (HL)
        0x57 => Instruction::new(IN::LD, AM::R_R, RT::D, RT::A, CT::NONE, None),  // LD D, A
        0x58 => Instruction::new(IN::LD, AM::R_R, RT::E, RT::B, CT::NONE, None),  // LD E, B
        0x59 => Instruction::new(IN::LD, AM::R_R, RT::E, RT::C, CT::NONE, None),  // LD E, C
        0x5A => Instruction::new(IN::LD, AM::R_R, RT::E, RT::D, CT::NONE, None),  // LD E, D
        0x5B => Instruction::new(IN::LD, AM::R_R, RT::E, RT::E, CT::NONE, None),  // LD E, E
        0x5C => Instruction::new(IN::LD, AM::R_R, RT::E, RT::H, CT::NONE, None),  // LD E, H
        0x5D => Instruction::new(IN::LD, AM::R_R, RT::E, RT::L, CT::NONE, None),  // LD E, L
        0x5E => Instruction::new(IN::LD, AM::R_MR, RT::E, RT::HL, CT::NONE, None),  // LD E, (HL)
        _ => Instruction::new(IN::LD, AM::R_R, RT::E, RT::A, CT::NONE, None),  // 0x5F: LD E, A
    }
}

/// The base opcodes `0x60..=0x6F`.
pub(crate) fn row_60(opcode: u8) -> (inst: Instruction)
    requires
        0x60 <= opcode <= 0x6F,
    ensures
        inst == base_entry(opcode),
{
    proof {
        lemma_opcode_fields(opcode);
    }
    match opcode {
        0x60 => Instruction::new(IN::LD, AM::R_R, RT::H, RT::B, CT::NONE, None),  // LD H, B
        0x61 => Instruction::new(IN::LD, AM::R_R, RT::H, RT::C, CT::NONE, None),  // LD H, C
        0x62 => Instruction::new(IN::LD, AM::R_R, RT::H, RT::D, CT::NONE, None),  // LD H, D
        0x63 => Instruction::new(IN::LD, AM::R_R, RT::H, RT::E, CT::NONE, None),  // LD H, E
        0x64 => Instruction::new(IN::LD, AM::R_R, RT::H, RT::H, CT::NONE, None),  // LD H, H
        0x65 => Instruction::new(IN::LD, AM::R_R, RT::H, RT::L, CT::NONE, None),  // LD H, L
        0x66 => Instruction::new(IN::LD, AM::R_MR, RT::H, RT::HL, CT::NONE, None),  // LD H, (HL)
        0x67 => Instruction::new(IN::LD, AM::R_R, RT::H, RT::A, CT::NONE, None),  // LD H, A
        0x68 => Instruction::new(IN::LD, AM::R_R, RT::L, RT::B, CT::NONE, None),  // LD L, B
        0x69 => Instruction::new(IN::LD, AM::R_R, RT::L, RT::C, CT::NONE, None),  // LD L, C
        0x6A => Instruction::new(IN::LD, AM::R_R, RT::L, RT::D, CT::NONE, None),  // LD L, D
        0x6B => Instruction::new(IN::LD, AM::R_R, RT::L, RT::E, CT::NONE, None),  // LD L, E
        0x6C => Instruction::new(IN::LD, AM::R_R, RT::L, RT::H, CT::NONE, None),  // LD L, H
        0x6D => Instruction::new(IN::LD, AM::R_R, RT::L, RT::L, CT::NONE, None),  // LD L, L
        0x6E => Instruction::new(IN::LD, AM::R_MR, RT::L, RT::HL, CT::NONE, None),  // LD L, (HL)
        _ => Instruction::new(IN::LD, AM::R_R, RT::L, RT::A, CT::NONE, None),  // 0x6F: LD L, A
    }
}

/// The base opcodes `0x70..=0x7F`.
pub(crate) fn row_70(opcode: u8) -> (inst: Instruction)
    requires
        0x70 <= opcode <= 0x7F,
    ensures
        inst == base_entry(opcode),
{
    proof {
        lemma_opcode_fields(opcode);
    }
    match opcode {
        0x70 => Instruction::new(IN::LD, AM::MR_R, RT::HL, RT::B, CT::NONE, None),  // LD (HL), B
        0x71 => Instruction::new(IN::LD, AM::MR_R, RT::HL, RT::C, CT::NONE, None),  // LD (HL), C
        0x72 => Instruction::new(IN::LD, AM::MR_R, RT::HL, RT::D, CT::NONE, None),  // LD (HL), D
        0x73 => Instruction::new(IN::LD, AM::MR_R, RT::HL, RT::E, CT::NONE, None),  // LD (HL), E
        0x74 => Instruction::new(IN::LD, AM::MR_R, RT::HL, RT::H, CT::NONE, None),  // LD (HL), H
        0x75 => Instruction::new(IN::LD, AM::MR_R, RT::HL, RT::L, CT::NONE, None),  // LD (HL), L
        0x76 => Instruction::new(IN::HALT, AM::IMP, RT::NONE, RT::NONE, CT::NONE, None),  // HALT
        0x77 => Instruction::new(IN::LD, AM::MR_R, RT::HL, RT::A, CT::NONE, None),  // LD (HL), A
        0x78 => Instruction::new(IN::LD, AM::R_R, RT::A, RT::B, CT::NONE, None),  // LD A, B
        0x79 => Instruction::new(IN::LD, AM::R_R, RT::A, RT::C, CT::NONE, None),  // LD A, C
        0x7A => Instruction::new(IN::LD, AM::R_R, RT::A, RT::D, CT::NONE, None),  // LD A, D
        0x7B => Instruction::new(IN::LD, AM::R_R, RT::A, RT::E, CT::NONE, None),  // LD A, E
        0x7C => Instruction::new(IN::LD, AM::R_R, RT::A, RT::H, CT::NONE, None),  // LD A, H
        0x7D => Instruction::new(IN::LD, AM::R_R, RT::A, RT::L, CT::NONE, None),  // LD A, L
        0x7E => Instruction::new(IN::LD, AM::R_MR, RT::A, RT::HL, CT::NONE, None),  // LD A, (HL)
        _ => Instruction::new(IN::LD, AM::R_R, RT::A, RT::A, CT::NONE, None),  // 0x7F: LD A, A
    }
}

/// The base opcodes `0x80..=0x8F`.
pub(crate) fn row_80(opcode: u8) -> (inst: Instruction)
    requires
        0x80 <= opcode <= 0x8F,
    ensures
        inst == base_entry(opcode),
{
    proof {
        lemma_opcode_fields(opcode);
    }
    match opcode {
        0x80 => Instruction::new(IN::ADD, AM::R_R, RT::A, RT::B, CT::NONE, None),  // ADD A, B
        0x81 => Instruction::new(IN::ADD, AM::R_R, RT::A, RT::C, CT::NONE, None),  // ADD A, C
        0x82 => Instruction::new(IN::ADD, AM::R_R, RT::A, RT::D, CT::NONE, None),  // ADD A, D
        0x83 => Instruction::new(IN::ADD, AM::R_R, RT::A, RT::E, CT::NONE, None),  // ADD A, E
        0x84 => Instruction::new(IN::ADD, AM::R_R, RT::A, RT::H, CT::NONE, None),  // ADD A, H
        0x85 => Instruction::new(IN::ADD, AM::R_R, RT::A, RT::L, CT::NONE, None),  // ADD A, L
        0x86 => Instruction::new(IN::ADD, AM::R_MR, RT::A, RT::HL, CT::NONE, None),  // ADD A, (HL)
        0x87 => Instruction::new(IN::ADD, AM::R_R, RT::A, RT::A, CT::NONE, None),  // ADD A, A
        0x88 => Instruction::new(IN::ADC, AM::R_R, RT::A, RT::B, CT::NONE, None),  // ADC A, B
        0x89 => Instruction::new(IN::ADC, AM::R_R, RT::A, RT::C, CT::NONE, None),  // ADC A, C
        0x8A => Instruction::new(IN::ADC, AM::R_R, RT::A, RT::D, CT::NONE, None),  // ADC A, D
        0x8B => Instruction::new(IN::ADC, AM::R_R, RT::A, RT::E, CT::NONE, None),  // ADC A, E
        0x8C => Instruction::new(IN::ADC, AM::R_R, RT::A, RT::H, CT::NONE, None),  // ADC A, H
        0x8D => Instruction::new(IN::ADC, AM::R_R, RT::A, RT::L, CT::NONE, None),  // ADC A, L
        0x8E => Instruction::new(IN::ADC, AM::R_MR, RT::A, RT::HL, CT::NONE, None),  // ADC A, (HL)
        _ => Instruction::new(IN::ADC, AM::R_R, RT::A, RT::A, CT::NONE, None),  // 0x8F: ADC A, A
    }
}

/// The base opcodes `0x90..=0x9F`.
pub(crate) fn row_90(opcode: u8) -> (inst: Instruction)
    requires
        0x90 <= opcode <= 0x9F,
    ensures
        inst == base_entry(opcode),
{
    proof {
        lemma_opcode_fields(opcode);
    }
    match opcode {
        0x90 => Instruction::new(IN::SUB, AM::R_R, RT::A, RT::B, CT::NONE, None),  // SUB B
        0x91 => Instruction::new(IN::SUB, AM::R_R, RT::A, RT::C, CT::NONE, None),  // SUB C
        0x92 => Instruction::new(IN::SUB, AM::R_R, RT::A, RT::D, CT::NONE, None),  // SUB D
        0x93 => Instruction::new(IN::SUB, AM::R_R, RT::A, RT::E, CT::NONE, None),  // SUB E
        0x94 => Instruction::new(IN::SUB, AM::R_R, RT::A, RT::H, CT::NONE, None),  // SUB H
        0x95 => Instruction::new(IN::SUB, AM::R_R, RT::A, RT::L, CT::NONE, None),  // SUB L
        0x96 => Instruction::new(IN::SUB, AM::R_MR, RT::A, RT::HL, CT::NONE, None),  // SUB (HL)
        0x97 => Instruction::new(IN::SUB, AM::R_R, RT::A, RT::A, CT::NONE, None),  // SUB A
        0x98 => Instruction::new(IN::SBC, AM::R_R, RT::A, RT::B, CT::NONE, None),  // SBC A, B
        0x99 => Instruction::new(IN::SBC, AM::R_R, RT::A, RT::C, CT::NONE, None),  // SBC A, C
        0x9A => Instruction::new(IN::SBC, AM::R_R, RT::A, RT::D, CT::NONE, None),  // SBC A, D
        0x9B => Instruction::new(IN::SBC, AM::R_R, RT::A, RT::E, CT::NONE, None),  // SBC A, E
        0x9C => Instruction::new(IN::SBC, AM::R_R, RT::A, RT::H, CT::NONE, None),  // SBC A, H
        0x9D => Instruction::new(IN::SBC, AM::R_R, RT::A, RT::L, CT::NONE, None),  // SBC A, L
        0x9E => Instruction::new(IN::SBC, AM::R_MR, RT::A, RT::HL, CT::NONE, None),  // SBC A, (HL)
        _ => Instruction::new(IN::SBC, AM::R_R, RT::A, RT::A, CT::NONE, None),  // 0x9F: SBC A, A
    }
}

/// The base opcodes `0xA0..=0xAF`.
pub(crate) fn row_a0(opcode: u8) -> (inst: Instruction)
    requires
        0xA0 <= opcode <= 0xAF,
    ensures
        inst == base_entry(opcode),
{
    proof {
        lemma_opcode_fields(opcode);
    }
    match opcode {
        0xA0 => Instruction::new(IN::AND, AM::R_R, RT::A, RT::B, CT::NONE, None),  // AND B
        0xA1 => Instruction::new(IN::AND, AM::R_R, RT::A, RT::C, CT::NONE, None),  // AND C
        0xA2 => Instruction::new(IN::AND, AM::R_R, RT::A, RT::D, CT::NONE, None),  // AND D
        0xA3 => Instruction::new(IN::AND, AM::R_R, RT::A, RT::E, CT::NONE, None),  // AND E
        0xA4 => Instruction::new(IN::AND, AM::R_R, RT::A, RT::H, CT::NONE, None),  // AND H
        0xA5 => Instruction::new(IN::AND, AM::R_R, RT::A, RT::L, CT::NONE, None),  // AND L
        0xA6 => Instruction::new(IN::AND, AM::R_MR, RT::A, RT::HL, CT::NONE, None),  // AND (HL)
        0xA7 => Instruction::new(IN::AND, AM::R_R, RT::A, RT::A, CT::NONE, None),  // AND A
        0xA8 => Instruction::new(IN::XOR, AM::R_R, RT::A, RT::B, CT::NONE, None),  // XOR B
        0xA9 => Instruction::new(IN::XOR, AM::R_R, RT::A, RT::C, CT::NONE, None),  // XOR C
        0xAA => Instruction::new(IN::XOR, AM::R_R, RT::A, RT::D, CT::NONE, None),  // XOR D
        0xAB => Instruction::new(IN::XOR, AM::R_R, RT::A, RT::E, CT::NONE, None),  // XOR E
        0xAC => Instruction::new(IN::XOR, AM::R_R, RT::A, RT::H, CT::NONE, None),  // XOR H
        0xAD => Instruction::new(IN::XOR, AM::R_R, RT::A, RT::L, CT::NONE, None),  // XOR L
        0xAE => Instruction::new(IN::XOR, AM::R_MR, RT::A, RT::HL, CT::NONE, None),  // XOR (HL)
        _ => Instruction::new(IN::XOR, AM::R_R, RT::A, RT::A, CT::NONE, None),  // 0xAF: XOR A
    }
}

/// The base opcodes `0xB0..=0xBF`.
pub(crate) fn row_b0(opcode: u8) -> (inst: Instruction)
    requires
        0xB0 <= opcode <= 0xBF,
    ensures
        inst == base_entry(opcode),
{
    proof {
        lemma_opcode_fields(opcode);
    }
    match opcode {
        0xB0 => Instruction::new(IN::OR, AM::R_R, RT::A, RT::B, CT::NONE, None),  // OR B
        0xB1 => Instruction::new(IN::OR, AM::R_R, RT::A, RT::C, CT::NONE, None),  // OR C
        0xB2 => Instruction::new(IN::OR, AM::R_R, RT::A, RT::D, CT::NONE, None),  // OR D
        0xB3 => Instruction::new(IN::OR, AM::R_R, RT::A, RT::E, CT::NONE, None),  // OR E
        0xB4 => Instruction::new(IN::OR, AM::R_R, RT::A, RT::H, CT::NONE, None),  // OR H
        0xB5 => Instruction::new(IN::OR, AM::R_R, RT::A, RT::L, CT::NONE, None),  // OR L
        0xB6 => Instruction::new(IN::OR, AM::R_MR, RT::A, RT::HL, CT::NONE, None),  // OR (HL)
        0xB7 => Instruction::new(IN::OR, AM::R_R, RT::A, RT::A, CT::NONE, None),  // OR A
        0xB8 => Instruction::new(IN::CP, AM::R_R, RT::A, RT::B, CT::NONE, None),  // CP B
        0xB9 => Instruction::new(IN::CP, AM::R_R, RT::A, RT::C, CT::NONE, None),  // CP C
        0xBA => Instruction::new(IN::CP, AM::R_R, RT::A, RT::D, CT::NONE, None),  // CP D
        0xBB => Instruction::new(IN::CP, AM::R_R, RT::A, RT::E, CT::NONE, None),  // CP E
        0xBC => Instruction::new(IN::CP, AM::R_R, RT::A, RT::H, CT::NONE, None),  // CP H
        0xBD => Instruction::new(IN::CP, AM::R_R, RT::A, RT::L, CT::NONE, None),  // CP L
        0xBE => Instruction::new(IN::CP, AM::R_MR, RT::A, RT::HL, CT::NONE, None),  // CP (HL)
        _ => Instruction::new(IN::CP, AM::R_R, RT::A, RT::A, CT::NONE, None),  // 0xBF: CP A
    }
}

/// The base opcodes `0xC0..=0xCF`.
pub(crate) fn row_c0(opcode: u8) -> (inst: Instruction)
    requires
        0xC0 <= opcode <= 0xCF,
    ensures
        inst == base_entry(opcode),
{
    proof {
        lemma_opcode_fields(opcode);
    }
    match opcode {
        0xC0 => Instruction::new(IN::RET, AM::IMP, RT::NONE, RT::NONE, CT::NZ, None),  // RET NZ
        0xC1 => Instruction::new(IN::POP, AM::R, RT::BC, RT::NONE, CT::NONE, None),  // POP BC
        0xC2 => Instruction::new(IN::JP, AM::D16, RT::NONE, RT::NONE, CT::NZ, None),  // JP NZ, a16
        0xC3 => Instruction::new(IN::JP, AM::D16, RT::NONE, RT::NONE, CT::NONE, None),  // JP a16
        0xC4 => Instruction::new(IN::CALL, AM::D16, RT::NONE, RT::NONE, CT::NZ, None),  // CALL NZ, a16
        0xC5 => Instruction::new(IN::PUSH, AM::R, RT::BC, RT::NONE, CT::NONE, None),  // PUSH BC
        0xC6 => Instruction::new(IN::ADD, AM::R_D8, RT::A, RT::NONE, CT::NONE, None),  // ADD A, d8
        0xC7 => Instruction::new(IN::RST, AM::IMP, RT::NONE, RT::NONE, CT::NONE, Some(0x00)),  // RST 00H
        0xC8 => Instruction::new(IN::RET, AM::IMP, RT::NONE, RT::NONE, CT::Z, None),  // RET Z
        0xC9 => Instruction::new(IN::RET, AM::IMP, RT::NONE, RT::NONE, CT::NONE, None),  // RET
        0xCA => Instruction::new(IN::JP, AM::D16, RT::NONE, RT::NONE, CT::Z, None),  // JP Z, a16
        0xCB => Instruction::new(IN::CB, AM::CB, RT::NONE, RT::NONE, CT::NONE, None),  // PREFIX CB
        0xCC => Instruction::new(IN::CALL, AM::D16, RT::NONE, RT::NONE, CT::Z, None),  // CALL Z, a16
        0xCD => Instruction::new(IN::CALL, AM::D16, RT::NONE, RT::NONE, CT::NONE, None),  // CALL a16
        0xCE => Instruction::new(IN::ADC, AM::R_D8, RT::A, RT::NONE, CT::NONE, None),  // ADC A, d8
        _ => Instruction::new(IN::RST, AM::IMP, RT::NONE, RT::NONE, CT::NONE, Some(0x08)),  // 0xCF: RST 08H
    }
}

/// The base opcodes `0xD0..=0xDF`.
pub(crate) fn row_d0(opcode: u8) -> (inst: Instruction)
    requires
        0xD0 <= opcode <= 0xDF,
    ensures
        inst == base_entry(opcode),
{
    proof {
        lemma_opcode_fields(opcode);
    }
    match opcode {
        0xD0 => Instruction::new(IN::RET, AM::IMP, RT::NONE, RT::NONE, CT::NC, None),  // RET NC
        0xD1 => Instruction::new(IN::POP, AM::R, RT::DE, RT::NONE, CT::NONE, None),  // POP DE
        0xD2 => Instruction::new(IN::JP, AM::D16, RT::NONE, RT::NONE, CT::NC, None),  // JP NC, a16
        0xD3 => Instruction::new(IN::ERR, AM::IMP, RT::NONE, RT::NONE, CT::NONE, None),  // unassigned
        0xD4 => Instruction::new(IN::CALL, AM::D16, RT::NONE, RT::NONE, CT::NC, None),  // CALL NC, a16
        0xD5 => Instruction::new(IN::PUSH, AM::R, RT::DE, RT::NONE, CT::NONE, None),  // PUSH DE
        0xD6 => Instruction::new(IN::SUB, AM::R_D8, RT::A, RT::NONE, CT::NONE, None),  // SUB d8
        0xD7 => Instruction::new(IN::RST, AM::IMP, RT::NONE, RT::NONE, CT::NONE, Some(0x10)),  // RST 10H
        0xD8 => Instruction::new(IN::RET, AM::IMP, RT::NONE, RT::NONE, CT::C, None),  // RET C
        0xD9 => Instruction::new(IN::RETI, AM::IMP, RT::NONE, RT::NONE, CT::NONE, None),  // RETI
        0xDA => Instruction::new(IN::JP, AM::D16, RT::NONE, RT::NONE, CT::C, None),  // JP C, a16
        0xDB => Instruction::new(IN::ERR, AM::IMP, RT::NONE, RT::NONE, CT::NONE, None),  // unassigned
        0xDC => Instruction::new(IN::CALL, AM::D16, RT::NONE, RT::NONE, CT::C, None),  // CALL C, a16
        0xDD => Instruction::new(IN::ERR, AM::IMP, RT::NONE, RT::NONE, CT::NONE, None),  // unassigned
        0xDE => Instruction::new(IN::SBC, AM::R_D8, RT::A, RT::NONE, CT::NONE, None),  // SBC A, d8
        _ => Instruction::new(IN::RST, AM::IMP, RT::NONE, RT::NONE, CT::NONE, Some(0x18)),  // 0xDF: RST 18H
    }
}

/// The base opcodes `0xE0..=0xEF`.
pub(crate) fn row_e0(opcode: u8) -> (inst: Instruction)
    requires
        0xE0 <= opcode <= 0xEF,
    ensures
        inst == base_entry(opcode),
{
    proof {
        lemma_opcode_fields(opcode);
    }
    match opcode {
        0xE0 => Instruction::new(IN::LDH, AM::A8_R, RT::NONE, RT::A, CT::NONE, None),  // LDH (a8), A
        0xE1 => Instruction::new(IN::POP, AM::R, RT::HL, RT::NONE, CT::NONE, None),  // POP HL
        0xE2 => Instruction::new(IN::LD, AM::MR_R, RT::C, RT::A, CT::NONE, None),  // LD (C), A
        0xE3 => Instruction::new(IN::ERR, AM::IMP, RT::NONE, RT::NONE, CT::NONE, None),  // unassigned
        0xE4 => Instruction::new(IN::ERR, AM::IMP, RT::NONE, RT::NONE, CT::NONE, None),  // unassigned
        0xE5 => Instruction::new(IN::PUSH, AM::R, RT::HL, RT::NONE, CT::NONE, None),  // PUSH HL
        0xE6 => Instruction::new(IN::AND, AM::R_D8, RT::A, RT::NONE, CT::NONE, None),  // AND d8
        0xE7 => Instruction::new(IN::RST, AM::IMP, RT::NONE, RT::NONE, CT::NONE, Some(0x20)),  // RST 20H
        0xE8 => Instruction::new(IN::ADD, AM::HL_SPR, RT::SP, RT::NONE, CT::NONE, None),  // ADD SP, r8
        0xE9 => Instruction::new(IN::JP, AM::JPHL, RT::HL, RT::NONE, CT::NONE, None),  // JP (HL)
        0xEA => Instruction::new(IN::LD, AM::A16_R, RT::NONE, RT::A, CT::NONE, None),  // LD (a16), A
        0xEB => Instruction::new(IN::ERR, AM::IMP, RT::NONE, RT::NONE, CT::NONE, None),  // unassigned
        0xEC => Instruction::new(IN::ERR, AM::IMP, RT::NONE, RT::NONE, CT::NONE, None),  // unassigned
        0xED => Instruction::new(IN::ERR, AM::IMP, RT::NONE, RT::NONE, CT::NONE, None),  // unassigned
        0xEE => Instruction::new(IN::XOR, AM::R_D8, RT::A, RT::NONE, CT::NONE, None),  // XOR d8
        _ => Instruction::new(IN::RST, AM::IMP, RT::NONE, RT::NONE, CT::NONE, Some(0x28)),  // 0xEF: RST 28H
    }
}

/// The base opcodes `0xF0..=0xFF`.
pub(crate) fn row_f0(opcode: u8) -> (inst: Instruction)
    requires
        0xF0 <= opcode <= 0xFF,
    ensures
        inst == base_entry(opcode),
{
    proof {
        lemma_opcode_fields(opcode);
    }
    match opcode {
        0xF0 => Instruction::new(IN::LDH, AM::R_A8, RT::A, RT::NONE, CT::NONE, None),  // LDH A, (a8)
        0xF1 => Instruction::new(IN::POP, AM::R, RT::AF, RT::NONE, CT::NONE, None),  // POP AF
        0xF2 => Instruction::new(IN::LD, AM::R_MR, RT::A, RT::C, CT::NONE, None),  // LD A, (C)
        0xF3 => Instruction::new(IN::DI, AM::IMP, RT::NONE, RT::NONE, CT::NONE, None),  // DI
        0xF4 => Instruction::new(IN::ERR, AM::IMP, RT::NONE, RT::NONE, CT::NONE, None),  // unassigned
        0xF5 => Instruction::new(IN::PUSH, AM::R, RT::AF, RT::NONE, CT::NONE, None),  // PUSH AF
        0xF6 => Instruction::new(IN::OR, AM::R_D8, RT::A, RT::NONE, CT::NONE, None),  // OR d8
        0xF7 => Instruction::new(IN::RST, AM::IMP, RT::NONE, RT::NONE, CT::NONE, Some(0x30)),  // RST 30H
        0xF8 => Instruction::new(IN::LD, AM::HL_SPR, RT::HL, RT::SP, CT::NONE, None),  // LD HL, SP+r8
        0xF9 => Instruction::new(IN::LD, AM::R_R, RT::SP, RT::HL, CT::NONE, None),  // LD SP, HL
        0xFA => Instruction::new(IN::LD, AM::R_A16, RT::A, RT::NONE, CT::NONE, None),  // LD A, (a16)
        0xFB => Instruction::new(IN::EI, AM::IMP, RT::NONE, RT::NONE, CT::NONE, None),  // EI
        0xFC => Instruction::new(IN::ERR, AM::IMP, RT::NONE, RT::NONE, CT::NONE, None),  // unassigned
        0xFD => Instruction::new(IN::ERR, AM::IMP, RT::NONE, RT::NONE, CT::NONE, None),  // unassigned
        0xFE => Instruction::new(IN::CP, AM::R_D8, RT::A, RT::NONE, CT::NONE, None),  // CP d8
        _ => Instruction::new(IN::RST, AM::IMP, RT::NONE, RT::NONE, CT::NONE, Some(0x38)),  // 0xFF: RST 38H
    }
}

} // verus!
