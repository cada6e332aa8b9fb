//! The rows of the page behind the `0xCB` prefix, sixteen opcodes to a row.

use vstd::prelude::*;
use crate::instructions::{
    cb_entry, lemma_opcode_fields, AddressingMode as AM, ConditionType as CT, Instruction,
    InstructionType as IN, RegType as RT,
};

verus! {

/// The prefixed opcodes `0x00..=0x0F`.
pub(crate) fn row_00(opcode: u8) -> (inst: Instruction)
    requires
        0x00 <= opcode <= 0x0F,
    ensures
        inst == cb_entry(opcode),
{
    proof {
        lemma_opcode_fields(opcode);
    }
    match opcode {
        0x00 => Instruction::new(IN::RLC, AM::R, RT::B, RT::NONE, CT::NONE, None),  // RLC B
        0x01 => Instruction::new(IN::RLC, AM::R, RT::C, RT::NONE, CT::NONE, None),  // RLC C
        0x02 => Instruction::new(IN::RLC, AM::R, RT::D, RT::NONE, CT::NONE, None),  // RLC D
        0x03 => Instruction::new(IN::RLC, AM::R, RT::E, RT::NONE, CT::NONE, None),  // RLC E
        0x04 => Instruction::new(IN::RLC, AM::R, RT::H, RT::NONE, CT::NONE, None),  // RLC H
        0x05 => Instruction::new(IN::RLC, AM::R, RT::L, RT::NONE, CT::NONE, None),  // RLC L
        0x06 => Instruction::new(IN::RLC, AM::MR, RT::HL, RT::NONE, CT::NONE, None),  // RLC (HL)
        0x07 => Instruction::new(IN::RLC, AM::R, RT::A, RT::NONE, CT::NONE, None),  // RLC A
        0x08 => Instruction::new(IN::RRC, AM::R, RT::B, RT::NONE, CT::NONE, None),  // RRC B
        0x09 => Instruction::new(IN::RRC, AM::R, RT::C, RT::NONE, CT::NONE, None),  // RRC C
        0x0A => Instruction::new(IN::RRC, AM::R, RT::D, RT::NONE, CT::NONE, None),  // RRC D
        0x0B => Instruction::new(IN::RRC, AM::R, RT::E, RT::NONE, CT::NONE, None),  // RRC E
        0x0C => Instruction::new(IN::RRC, AM::R, RT::H, RT::NONE, CT::NONE, None),  // RRC H
        0x0D => Instruction::new(IN::RRC, AM::R, RT::L, RT::NONE, CT::NONE, None),  // RRC L
        0x0E => Instruction::new(IN::RRC, AM::MR, RT::HL, RT::NONE, CT::NONE, None),  // RRC (HL)
        _ => Instruction::new(IN::RRC, AM::R, RT::A, RT::NONE, CT::NONE, None),  // 0x0F: RRC A
    }
}

/// The prefixed opcodes `0x10..=0x1F`.
pub(crate) fn row_10(opcode: u8) -> (inst: Instruction)
    requires
        0x10 <= opcode <= 0x1F,
    ensures
        inst == cb_entry(opcode),
{
    proof {
        lemma_opcode_fields(opcode);
    }
    match opcode {
        0x10 => Instruction::new(IN::RL, AM::R, RT::B, RT::NONE, CT::NONE, None),  // RL B
        0x11 => Instruction::new(IN::RL, AM::R, RT::C, RT::NONE, CT::NONE, None),  // RL C
        0x12 => Instruction::new(IN::RL, AM::R, RT::D, RT::NONE, CT::NONE, None),  // RL D
        0x13 => Instruction::new(IN::RL, AM::R, RT::E, RT::NONE, CT::NONE, None),  // RL E
        0x14 => Instruction::new(IN::RL, AM::R, RT::H, RT::NONE, CT::NONE, None),  // RL H
        0x15 => Instruction::new(IN::RL, AM::R, RT::L, RT::NONE, CT::NONE, None),  // RL L
        0x16 => Instruction::new(IN::RL, AM::MR, RT::HL, RT::NONE, CT::NONE, None),  // RL (HL)
        0x17 => Instruction::new(IN::RL, AM::R, RT::A, RT::NONE, CT::NONE, None),  // RL A
        0x18 => Instruction::new(IN::RR, AM::R, RT::B, RT::NONE, CT::NONE, None),  // RR B
        0x19 => Instruction::new(IN::RR, AM::R, RT::C, RT::NONE, CT::NONE, None),  // RR C
        0x1A => Instruction::new(IN::RR, AM::R, RT::D, RT::NONE, CT::NONE, None),  // RR D
        0x1B => Instruction::new(IN::RR, AM::R, RT::E, RT::NONE, CT::NONE, None),  // RR E
        0x1C => Instruction::new(IN::RR, AM::R, RT::H, RT::NONE, CT::NONE, None),  // RR H
        0x1D => Instruction::new(IN::RR, AM::R, RT::L, RT::NONE, CT::NONE, None),  // RR L
        0x1E => Instruction::new(IN::RR, AM::MR, RT::HL, RT::NONE, CT::NONE, None),  // RR (HL)
        _ => Instruction::new(IN::RR, AM::R, RT::A, RT::NONE, CT::NONE, None),  // 0x1F: RR A
    }
}

/// The prefixed opcodes `0x20..=0x2F`.
pub(crate) fn row_20(opcode: u8) -> (inst: Instruction)
    requires
        0x20 <= opcode <= 0x2F,
    ensures
        inst == cb_entry(opcode),
{
    proof {
        lemma_opcode_fields(opcode);
    }
    match opcode {
        0x20 => Instruction::new(IN::SLA, AM::R, RT::B, RT::NONE, CT::NONE, None),  // SLA B
        0x21 => Instruction::new(IN::SLA, AM::R, RT::C, RT::NONE, CT::NONE, None),  // SLA C
        0x22 => Instruction::new(IN::SLA, AM::R, RT::D, RT::NONE, CT::NONE, None),  // SLA D
        0x23 => Instruction::new(IN::SLA, AM::R, RT::E, RT::NONE, CT::NONE, None),  // SLA E
        0x24 => Instruction::new(IN::SLA, AM::R, RT::H, RT::NONE, CT::NONE, None),  // SLA H
        0x25 => Instruction::new(IN::SLA, AM::R, RT::L, RT::NONE, CT::NONE, None),  // SLA L
        0x26 => Instruction::new(IN::SLA, AM::MR, RT::HL, RT::NONE, CT::NONE, None),  // SLA (HL)
        0x27 => Instruction::new(IN::SLA, AM::R, RT::A, RT::NONE, CT::NONE, None),  // SLA A
        0x28 => Instruction::new(IN::SRA, AM::R, RT::B, RT::NONE, CT::NONE, None),  // SRA B
        0x29 => Instruction::new(IN::SRA, AM::R, RT::C, RT::NONE, CT::NONE, None),  // SRA C
        0x2A => Instruction::new(IN::SRA, AM::R, RT::D, RT::NONE, CT::NONE, None),  // SRA D
        0x2B => Instruction::new(IN::SRA, AM::R, RT::E, RT::NONE, CT::NONE, None),  // SRA E
        0x2C => Instruction::new(IN::SRA, AM::R, RT::H, RT::NONE, CT::NONE, None),  // SRA H
        0x2D => Instruction::new(IN::SRA, AM::R, RT::L, RT::NONE, CT::NONE, None),  // SRA L
        0x2E => Instruction::new(IN::SRA, AM::MR, RT::HL, RT::NONE, CT::NONE, None),  // SRA (HL)
        _ => Instruction::new(IN::SRA, AM::R, RT::A, RT::NONE, CT::NONE, None),  // 0x2F: SRA A
    }
}

/// The prefixed opcodes `0x30..=0x3F`.
pub(crate) fn row_30(opcode: u8) -> (inst: Instruction)
    requires
        0x30 <= opcode <= 0x3F,
    ensures
        inst == cb_entry(opcode),
{
    proof {
        lemma_opcode_fields(opcode);
    }
    match opcode {
        0x30 => Instruction::new(IN::SWAP, AM::R, RT::B, RT::NONE, CT::NONE, None),  // SWAP B
        0x31 => Instruction::new(IN::SWAP, AM::R, RT::C, RT::NONE, CT::NONE, None),  // SWAP C
        0x32 => Instruction::new(IN::SWAP, AM::R, RT::D, RT::NONE, CT::NONE, None),  // SWAP D
        0x33 => Instruction::new(IN::SWAP, AM::R, RT::E, RT::NONE, CT::NONE, None),  // SWAP E
        0x34 => Instruction::new(IN::SWAP, AM::R, RT::H, RT::NONE, CT::NONE, None),  // SWAP H
        0x35 => Instruction::new(IN::SWAP, AM::R, RT::L, RT::NONE, CT::NONE, None),  // SWAP L
        0x36 => Instruction::new(IN::SWAP, AM::MR, RT::HL, RT::NONE, CT::NONE, None),  // SWAP (HL)
        0x37 => Instruction::new(IN::SWAP, AM::R, RT::A, RT::NONE, CT::NONE, None),  // SWAP A
        0x38 => Instruction::new(IN::SRL, AM::R, RT::B, RT::NONE, CT::NONE, None),  // SRL B
        0x39 => Instruction::new(IN::SRL, AM::R, RT::C, RT::NONE, CT::NONE, None),  // SRL C
        0x3A => Instruction::new(IN::SRL, AM::R, RT::D, RT::NONE, CT::NONE, None),  // SRL D
        0x3B => Instruction::new(IN::SRL, AM::R, RT::E, RT::NONE, CT::NONE, None),  // SRL E
        0x3C => Instruction::new(IN::SRL, AM::R, RT::H, RT::NONE, CT::NONE, None),  // SRL H
        0x3D => Instruction::new(IN::SRL, AM::R, RT::L, RT::NONE, CT::NONE, None),  // SRL L
        0x3E => Instruction::new(IN::SRL, AM::MR, RT::HL, RT::NONE, CT::NONE, None),  // SRL (HL)
        _ => Instruction::new(IN::SRL, AM::R, RT::A, RT::NONE, CT::NONE, None),  // 0x3F: SRL A
    }
}

/// The prefixed opcodes `0x40..=0x4F`.
pub(crate) fn row_40(opcode: u8) -> (inst: Instruction)
    requires
        0x40 <= opcode <= 0x4F,
    ensures
        inst == cb_entry(opcode),
{
    proof {
        lemma_opcode_fields(opcode);
    }
    match opcode {
        0x40 => Instruction::new(IN::BIT, AM::R, RT::B, RT::NONE, CT::NONE, None),  // BIT 0, B
        0x41 => Instruction::new(IN::BIT, AM::R, RT::C, RT::NONE, CT::NONE, None),  // BIT 0, C
        0x42 => Instruction::new(IN::BIT, AM::R, RT::D, RT::NONE, CT::NONE, None),  // BIT 0, D
        0x43 => Instruction::new(IN::BIT, AM::R, RT::E, RT::NONE, CT::NONE, None),  // BIT 0, E
        0x44 => Instruction::new(IN::BIT, AM::R, RT::H, RT::NONE, CT::NONE, None),  // BIT 0, H
        0x45 => Instruction::new(IN::BIT, AM::R, RT::L, RT::NONE, CT::NONE, None),  // BIT 0, L
        0x46 => Instruction::new(IN::BIT, AM::MR, RT::HL, RT::NONE, CT::NONE, None),  // BIT 0, (HL)
        0x47 => Instruction::new(IN::BIT, AM::R, RT::A, RT::NONE, CT::NONE, None),  // BIT 0, A
        0x48 => Instruction::new(IN::BIT, AM::R, RT::B, RT::NONE, CT::NONE, None),  // BIT 1, B
        0x49 => Instruction::new(IN::BIT, AM::R, RT::C, RT::NONE, CT::NONE, None),  // BIT 1, C
        0x4A => Instruction::new(IN::BIT, AM::R, RT::D, RT::NONE, CT::NONE, None),  // BIT 1, D
        0x4B => Instruction::new(IN::BIT, AM::R, RT::E, RT::NONE, CT::NONE, None),  // BIT 1, E
        0x4C => Instruction::new(IN::BIT, AM::R, RT::H, RT::NONE, CT::NONE, None),  // BIT 1, H
        0x4D => Instruction::new(IN::BIT, AM::R, RT::L, RT::NONE, CT::NONE, None),  // BIT 1, L
        0x4E => Instruction::new(IN::BIT, AM::MR, RT::HL, RT::NONE, CT::NONE, None),  // BIT 1, (HL)
        _ => Instruction::new(IN::BIT, AM::R, RT::A, RT::NONE, CT::NONE, None),  // 0x4F: BIT 1, A
    }
}

/// The prefixed opcodes `0x50..=0x5F`.
pub(crate) fn row_50(opcode: u8) -> (inst: Instruction)
    requires
        0x50 <= opcode <= 0x5F,
    ensures
        inst == cb_entry(opcode),
{
    proof {
        lemma_opcode_fields(opcode);
    }
    match opcode {
        0x50 => Instruction::new(IN::BIT, AM::R, RT::B, RT::NONE, CT::NONE, None),  // BIT 2, B
        0x51 => Instruction::new(IN::BIT, AM::R, RT::C, RT::NONE, CT::NONE, None),  // BIT 2, C
        0x52 => Instruction::new(IN::BIT, AM::R, RT::D, RT::NONE, CT::NONE, None),  // BIT 2, D
        0x53 => Instruction::new(IN::BIT, AM::R, RT::E, RT::NONE, CT::NONE, None),  // BIT 2, E
        0x54 => Instruction::new(IN::BIT, AM::R, RT::H, RT::NONE, CT::NONE, None),  // BIT 2, H
        0x55 => Instruction::new(IN::BIT, AM::R, RT::L, RT::NONE, CT::NONE, None),  // BIT 2, L
        0x56 => Instruction::new(IN::BIT, AM::MR, RT::HL, RT::NONE, CT::NONE, None),  // BIT 2, (HL)
        0x57 => Instruction::new(IN::BIT, AM::R, RT::A, RT::NONE, CT::NONE, None),  // BIT 2, A
        0x58 => Instruction::new(IN::BIT, AM::R, RT::B, RT::NONE, CT::NONE, None),  // BIT 3, B
        0x59 => Instruction::new(IN::BIT, AM::R, RT::C, RT::NONE, CT::NONE, None),  // BIT 3, C
        0x5A => Instruction::new(IN::BIT, AM::R, RT::D, RT::NONE, CT::NONE, None),  // BIT 3, D
        0x5B => Instruction::new(IN::BIT, AM::R, RT::E, RT::NONE, CT::NONE, None),  // BIT 3, E
        0x5C => Instruction::new(IN::BIT, AM::R, RT::H, RT::NONE, CT::NONE, None),  // BIT 3, H
        0x5D => Instruction::new(IN::BIT, AM::R, RT::L, RT::NONE, CT::NONE, None),  // BIT 3, L
        0x5E => Instruction::new(IN::BIT, AM::MR, RT::HL, RT::NONE, CT::NONE, None),  // BIT 3, (HL)
        _ => Instruction::new(IN::BIT, AM::R, RT::A, RT::NONE, CT::NONE, None),  // 0x5F: BIT 3, A
    }
}

/// The prefixed opcodes `0x60..=0x6F`.
pub(crate) fn row_60(opcode: u8) -> (inst: Instruction)
    requires
        0x60 <= opcode <= 0x6F,
    ensures
        inst == cb_entry(opcode),
{
    proof {
        lemma_opcode_fields(opcode);
    }
    match opcode {
        0x60 => Instruction::new(IN::BIT, AM::R, RT::B, RT::NONE, CT::NONE, None),  // BIT 4, B
        0x61 => Instruction::new(IN::BIT, AM::R, RT::C, RT::NONE, CT::NONE, None),  // BIT 4, C
        0x62 => Instruction::new(IN::BIT, AM::R, RT::D, RT::NONE, CT::NONE, None),  // BIT 4, D
        0x63 => Instruction::new(IN::BIT, AM::R, RT::E, RT::NONE, CT::NONE, None),  // BIT 4, E
        0x64 => Instruction::new(IN::BIT, AM::R, RT::H, RT::NONE, CT::NONE, None),  // BIT 4, H
        0x65 => Instruction::new(IN::BIT, AM::R, RT::L, RT::NONE, CT::NONE, None),  // BIT 4, L
        0x66 => Instruction::new(IN::BIT, AM::MR, RT::HL, RT::NONE, CT::NONE, None),  // BIT 4, (HL)
        0x67 => Instruction::new(IN::BIT, AM::R, RT::A, RT::NONE, CT::NONE, None),  // BIT 4, A
        0x68 => Instruction::new(IN::BIT, AM::R, RT::B, RT::NONE, CT::NONE, None),  // BIT 5, B
        0x69 => Instruction::new(IN::BIT, AM::R, RT::C, RT::NONE, CT::NONE, None),  // BIT 5, C
        0x6A => Instruction::new(IN::BIT, AM::R, RT::D, RT::NONE, CT::NONE, None),  // BIT 5, D
        0x6B => Instruction::new(IN::BIT, AM::R, RT::E, RT::NONE, CT::NONE, None),  // BIT 5, E
        0x6C => Instruction::new(IN::BIT, AM::R, RT::H, RT::NONE, CT::NONE, None),  // BIT 5, H
        0x6D => Instruction::new(IN::BIT, AM::R, RT::L, RT::NONE, CT::NONE, None),  // BIT 5, L
        0x6E => Instruction::new(IN::BIT, AM::MR, RT::HL, RT::NONE, CT::NONE, None),  // BIT 5, (HL)
        _ => Instruction::new(IN::BIT, AM::R, RT::A, RT::NONE, CT::NONE, None),  // 0x6F: BIT 5, A
    }
}

/// The prefixed opcodes `0x70..=0x7F`.
pub(crate) fn row_70(opcode: u8) -> (inst: Instruction)
    requires
        0x70 <= opcode <= 0x7F,
    ensures
        inst == cb_entry(opcode),
{
    proof {
        lemma_opcode_fields(opcode);
    }
    match opcode {
        0x70 => Instruction::new(IN::BIT, AM::R, RT::B, RT::NONE, CT::NONE, None),  // BIT 6, B
        0x71 => Instruction::new(IN::BIT, AM::R, RT::C, RT::NONE, CT::NONE, None),  // BIT 6, C
        0x72 => Instruction::new(IN::BIT, AM::R, RT::D, RT::NONE, CT::NONE, None),  // BIT 6, D
        0x73 => Instruction::new(IN::BIT, AM::R, RT::E, RT::NONE, CT::NONE, None),  // BIT 6, E
        0x74 => Instruction::new(IN::BIT, AM::R, RT::H, RT::NONE, CT::NONE, None),  // BIT 6, H
        0x75 => Instruction::new(IN::BIT, AM::R, RT::L, RT::NONE, CT::NONE, None),  // BIT 6, L
        0x76 => Instruction::new(IN::BIT, AM::MR, RT::HL, RT::NONE, CT::NONE, None),  // BIT 6, (HL)
        0x77 => Instruction::new(IN::BIT, AM::R, RT::A, RT::NONE, CT::NONE, None),  // BIT 6, A
        0x78 => Instruction::new(IN::BIT, AM::R, RT::B, RT::NONE, CT::NONE, None),  // BIT 7, B
        0x79 => Instruction::new(IN::BIT, AM::R, RT::C, RT::NONE, CT::NONE, None),  // BIT 7, C
        0x7A => Instruction::new(IN::BIT, AM::R, RT::D, RT::NONE, CT::NONE, None),  // BIT 7, D
        0x7B => Instruction::new(IN::BIT, AM::R, RT::E, RT::NONE, CT::NONE, None),  // BIT 7, E
        0x7C => Instruction::new(IN::BIT, AM::R, RT::H, RT::NONE, CT::NONE, None),  // BIT 7, H
        0x7D => Instruction::new(IN::BIT, AM::R, RT::L, RT::NONE, CT::NONE, None),  // BIT 7, L
        0x7E => Instruction::new(IN::BIT, AM::MR, RT::HL, RT::NONE, CT::NONE, None),  // BIT 7, (HL)
        _ => Instruction::new(IN::BIT, AM::R, RT::A, RT::NONE, CT::NONE, None),  // 0x7F: BIT 7, A
    }
}

/// The prefixed opcodes `0x80..=0x8F`.
pub(crate) fn row_80(opcode: u8) -> (inst: Instruction)
    requires
        0x80 <= opcode <= 0x8F,
    ensures
        inst == cb_entry(opcode),
{
    proof {
        lemma_opcode_fields(opcode);
    }
    match opcode {
        0x80 => Instruction::new(IN::RES, AM::R, RT::B, RT::NONE, CT::NONE, None),  // RES 0, B
        0x81 => Instruction::new(IN::RES, AM::R, RT::C, RT::NONE, CT::NONE, None),  // RES 0, C
        0x82 => Instruction::new(IN::RES, AM::R, RT::D, RT::NONE, CT::NONE, None),  // RES 0, D
        0x83 => Instruction::new(IN::RES, AM::R, RT::E, RT::NONE, CT::NONE, None),  // RES 0, E
        0x84 => Instruction::new(IN::RES, AM::R, RT::H, RT::NONE, CT::NONE, None),  // RES 0, H
        0x85 => Instruction::new(IN::RES, AM::R, RT::L, RT::NONE, CT::NONE, None),  // RES 0, L
        0x86 => Instruction::new(IN::RES, AM::MR, RT::HL, RT::NONE, CT::NONE, None),  // RES 0, (HL)
        0x87 => Instruction::new(IN::RES, AM::R, RT::A, RT::NONE, CT::NONE, None),  // RES 0, A
        0x88 => Instruction::new(IN::RES, AM::R, RT::B, RT::NONE, CT::NONE, None),  // RES 1, B
        0x89 => Instruction::new(IN::RES, AM::R, RT::C, RT::NONE, CT::NONE, None),  // RES 1, C
        0x8A => Instruction::new(IN::RES, AM::R, RT::D, RT::NONE, CT::NONE, None),  // RES 1, D
        0x8B => Instruction::new(IN::RES, AM::R, RT::E, RT::NONE, CT::NONE, None),  // RES 1, E
        0x8C => Instruction::new(IN::RES, AM::R, RT::H, RT::NONE, CT::NONE, None),  // RES 1, H
        0x8D => Instruction::new(IN::RES, AM::R, RT::L, RT::NONE, CT::NONE, None),  // RES 1, L
        0x8E => Instruction::new(IN::RES, AM::MR, RT::HL, RT::NONE, CT::NONE, None),  // RES 1, (HL)
        _ => Instruction::new(IN::RES, AM::R, RT::A, RT::NONE, CT::NONE, None),  // 0x8F: RES 1, A
    }
}

/// The prefixed opcodes `0x90..=0x9F`.
pub(crate) fn row_90(opcode: u8) -> (inst: Instruction)
    requires
        0x90 <= opcode <= 0x9F,
    ensures
        inst == cb_entry(opcode),
{
    proof {
        lemma_opcode_fields(opcode);
    }
    match opcode {
        0x90 => Instruction::new(IN::RES, AM::R, RT::B, RT::NONE, CT::NONE, None),  // RES 2, B
        0x91 => Instruction::new(IN::RES, AM::R, RT::C, RT::NONE, CT::NONE, None),  // RES 2, C
        0x92 => Instruction::new(IN::RES, AM::R, RT::D, RT::NONE, CT::NONE, None),  // RES 2, D
        0x93 => Instruction::new(IN::RES, AM::R, RT::E, RT::NONE, CT::NONE, None),  // RES 2, E
        0x94 => Instruction::new(IN::RES, AM::R, RT::H, RT::NONE, CT::NONE, None),  // RES 2, H
        0x95 => Instruction::new(IN::RES, AM::R, RT::L, RT::NONE, CT::NONE, None),  // RES 2, L
        0x96 => Instruction::new(IN::RES, AM::MR, RT::HL, RT::NONE, CT::NONE, None),  // RES 2, (HL)
        0x97 => Instruction::new(IN::RES, AM::R, RT::A, RT::NONE, CT::NONE, None),  // RES 2, A
        0x98 => Instruction::new(IN::RES, AM::R, RT::B, RT::NONE, CT::NONE, None),  // RES 3, B
        0x99 => Instruction::new(IN::RES, AM::R, RT::C, RT::NONE, CT::NONE, None),  // RES 3, C
        0x9A => Instruction::new(IN::RES, AM::R, RT::D, RT::NONE, CT::NONE, None),  // RES 3, D
        0x9B => Instruction::new(IN::RES, AM::R, RT::E, RT::NONE, CT::NONE, None),  // RES 3, E
        0x9C => Instruction::new(IN::RES, AM::R, RT::H, RT::NONE, CT::NONE, None),  // RES 3, H
        0x9D => Instruction::new(IN::RES, AM::R, RT::L, RT::NONE, CT::NONE, None),  // RES 3, L
        0x9E => Instruction::new(IN::RES, AM::MR, RT::HL, RT::NONE, CT::NONE, None),  // RES 3, (HL)
        _ => Instruction::new(IN::RES, AM::R, RT::A, RT::NONE, CT::NONE, None),  // 0x9F: RES 3, A
    }
}

/// The prefixed opcodes `0xA0..=0xAF`.
pub(crate) fn row_a0(opcode: u8) -> (inst: Instruction)
    requires
        0xA0 <= opcode <= 0xAF,
    ensures
        inst == cb_entry(opcode),
{
    proof {
        lemma_opcode_fields(opcode);
    }
    match opcode {
        0xA0 => Instruction::new(IN::RES, AM::R, RT::B, RT::NONE, CT::NONE, None),  // RES 4, B
        0xA1 => Instruction::new(IN::RES, AM::R, RT::C, RT::NONE, CT::NONE, None),  // RES 4, C
        0xA2 => Instruction::new(IN::RES, AM::R, RT::D, RT::NONE, CT::NONE, None),  // RES 4, D
        0xA3 => Instruction::new(IN::RES, AM::R, RT::E, RT::NONE, CT::NONE, None),  // RES 4, E
        0xA4 => Instruction::new(IN::RES, AM::R, RT::H, RT::NONE, CT::NONE, None),  // RES 4, H
        0xA5 => Instruction::new(IN::RES, AM::R, RT::L, RT::NONE, CT::NONE, None),  // RES 4, L
        0xA6 => Instruction::new(IN::RES, AM::MR, RT::HL, RT::NONE, CT::NONE, None),  // RES 4, (HL)
        0xA7 => Instruction::new(IN::RES, AM::R, RT::A, RT::NONE, CT::NONE, None),  // RES 4, A
        0xA8 => Instruction::new(IN::RES, AM::R, RT::B, RT::NONE, CT::NONE, None),  // RES 5, B
        0xA9 => Instruction::new(IN::RES, AM::R, RT::C, RT::NONE, CT::NONE, None),  // RES 5, C
        0xAA => Instruction::new(IN::RES, AM::R, RT::D, RT::NONE, CT::NONE, None),  // RES 5, D
        0xAB => Instruction::new(IN::RES, AM::R, RT::E, RT::NONE, CT::NONE, None),  // RES 5, E
        0xAC => Instruction::new(IN::RES, AM::R, RT::H, RT::NONE, CT::NONE, None),  // RES 5, H
        0xAD => Instruction::new(IN::RES, AM::R, RT::L, RT::NONE, CT::NONE, None),  // RES 5, L
        0xAE => Instruction::new(IN::RES, AM::MR, RT::HL, RT::NONE, CT::NONE, None),  // RES 5, (HL)
        _ => Instruction::new(IN::RES, AM::R, RT::A, RT::NONE, CT::NONE, None),  // 0xAF: RES 5, A
    }
}

/// The prefixed opcodes `0xB0..=0xBF`.
pub(crate) fn row_b0(opcode: u8) -> (inst: Instruction)
    requires
        0xB0 <= opcode <= 0xBF,
    ensures
        inst == cb_entry(opcode),
{
    proof {
        lemma_opcode_fields(opcode);
    }
    match opcode {
        0xB0 => Instruction::new(IN::RES, AM::R, RT::B, RT::NONE, CT::NONE, None),  // RES 6, B
        0xB1 => Instruction::new(IN::RES, AM::R, RT::C, RT::NONE, CT::NONE, None),  // RES 6, C
        0xB2 => Instruction::new(IN::RES, AM::R, RT::D, RT::NONE, CT::NONE, None),  // RES 6, D
        0xB3 => Instruction::new(IN::RES, AM::R, RT::E, RT::NONE, CT::NONE, None),  // RES 6, E
        0xB4 => Instruction::new(IN::RES, AM::R, RT::H, RT::NONE, CT::NONE, None),  // RES 6, H
        0xB5 => Instruction::new(IN::RES, AM::R, RT::L, RT::NONE, CT::NONE, None),  // RES 6, L
        0xB6 => Instruction::new(IN::RES, AM::MR, RT::HL, RT::NONE, CT::NONE, None),  // RES 6, (HL)
        0xB7 => Instruction::new(IN::RES, AM::R, RT::A, RT::NONE, CT::NONE, None),  // RES 6, A
        0xB8 => Instruction::new(IN::RES, AM::R, RT::B, RT::NONE, CT::NONE, None),  // RES 7, B
        0xB9 => Instruction::new(IN::RES, AM::R, RT::C, RT::NONE, CT::NONE, None),  // RES 7, C
        0xBA => Instruction::new(IN::RES, AM::R, RT::D, RT::NONE, CT::NONE, None),  // RES 7, D
        0xBB => Instruction::new(IN::RES, AM::R, RT::E, RT::NONE, CT::NONE, None),  // RES 7, E
        0xBC => Instruction::new(IN::RES, AM::R, RT::H, RT::NONE, CT::NONE, None),  // RES 7, H
        0xBD => Instruction::new(IN::RES, AM::R, RT::L, RT::NONE, CT::NONE, None),  // RES 7, L
        0xBE => Instruction::new(IN::RES, AM::MR, RT::HL, RT::NONE, CT::NONE, None),  // RES 7, (HL)
        _ => Instruction::new(IN::RES, AM::R, RT::A, RT::NONE, CT::NONE, None),  // 0xBF: RES 7, A
    }
}

/// The prefixed opcodes `0xC0..=0xCF`.
pub(crate) fn row_c0(opcode: u8) -> (inst: Instruction)
    requires
        0xC0 <= opcode <= 0xCF,
    ensures
        inst == cb_entry(opcode),
{
    proof {
        lemma_opcode_fields(opcode);
    }
    match opcode {
        0xC0 => Instruction::new(IN::SET, AM::R, RT::B, RT::NONE, CT::NONE, None),  // SET 0, B
        0xC1 => Instruction::new(IN::SET, AM::R, RT::C, RT::NONE, CT::NONE, None),  // SET 0, C
        0xC2 => Instruction::new(IN::SET, AM::R, RT::D, RT::NONE, CT::NONE, None),  // SET 0, D
        0xC3 => Instruction::new(IN::SET, AM::R, RT::E, RT::NONE, CT::NONE, None),  // SET 0, E
        0xC4 => Instruction::new(IN::SET, AM::R, RT::H, RT::NONE, CT::NONE, None),  // SET 0, H
        0xC5 => Instruction::new(IN::SET, AM::R, RT::L, RT::NONE, CT::NONE, None),  // SET 0, L
        0xC6 => Instruction::new(IN::SET, AM::MR, RT::HL, RT::NONE, CT::NONE, None),  // SET 0, (HL)
        0xC7 => Instruction::new(IN::SET, AM::R, RT::A, RT::NONE, CT::NONE, None),  // SET 0, A
        0xC8 => Instruction::new(IN::SET, AM::R, RT::B, RT::NONE, CT::NONE, None),  // SET 1, B
        0xC9 => Instruction::new(IN::SET, AM::R, RT::C, RT::NONE, CT::NONE, None),  // SET 1, C
        0xCA => Instruction::new(IN::SET, AM::R, RT::D, RT::NONE, CT::NONE, None),  // SET 1, D
        0xCB => Instruction::new(IN::SET, AM::R, RT::E, RT::NONE, CT::NONE, None),  // SET 1, E
        0xCC => Instruction::new(IN::SET, AM::R, RT::H, RT::NONE, CT::NONE, None),  // SET 1, H
        0xCD => Instruction::new(IN::SET, AM::R, RT::L, RT::NONE, CT::NONE, None),  // SET 1, L
        0xCE => Instruction::new(IN::SET, AM::MR, RT::HL, RT::NONE, CT::NONE, None),  // SET 1, (HL)
        _ => Instruction::new(IN::SET, AM::R, RT::A, RT::NONE, CT::NONE, None),  // 0xCF: SET 1, A
    }
}

/// The prefixed opcodes `0xD0..=0xDF`.
pub(crate) fn row_d0(opcode: u8) -> (inst: Instruction)
    requires
        0xD0 <= opcode <= 0xDF,
    ensures
        inst == cb_entry(opcode),
{
    proof {
        lemma_opcode_fields(opcode);
    }
    match opcode {
        0xD0 => Instruction::new(IN::SET, AM::R, RT::B, RT::NONE, CT::NONE, None),  // SET 2, B
        0xD1 => Instruction::new(IN::SET, AM::R, RT::C, RT::NONE, CT::NONE, None),  // SET 2, C
        0xD2 => Instruction::new(IN::SET, AM::R, RT::D, RT::NONE, CT::NONE, None),  // SET 2, D
        0xD3 => Instruction::new(IN::SET, AM::R, RT::E, RT::NONE, CT::NONE, None),  // SET 2, E
        0xD4 => Instruction::new(IN::SET, AM::R, RT::H, RT::NONE, CT::NONE, None),  // SET 2, H
        0xD5 => Instruction::new(IN::SET, AM::R, RT::L, RT::NONE, CT::NONE, None),  // SET 2, L
        0xD6 => Instruction::new(IN::SET, AM::MR, RT::HL, RT::NONE, CT::NONE, None),  // SET 2, (HL)
        0xD7 => Instruction::new(IN::SET, AM::R, RT::A, RT::NONE, CT::NONE, None),  // SET 2, A
        0xD8 => Instruction::new(IN::SET, AM::R, RT::B, RT::NONE, CT::NONE, None),  // SET 3, B
        0xD9 => Instruction::new(IN::SET, AM::R, RT::C, RT::NONE, CT::NONE, None),  // SET 3, C
        0xDA => Instruction::new(IN::SET, AM::R, RT::D, RT::NONE, CT::NONE, None),  // SET 3, D
        0xDB => Instruction::new(IN::SET, AM::R, RT::E, RT::NONE, CT::NONE, None),  // SET 3, E
        0xDC => Instruction::new(IN::SET, AM::R, RT::H, RT::NONE, CT::NONE, None),  // SET 3, H
        0xDD => Instruction::new(IN::SET, AM::R, RT::L, RT::NONE, CT::NONE, None),  // SET 3, L
        0xDE => Instruction::new(IN::SET, AM::MR, RT::HL, RT::NONE, CT::NONE, None),  // SET 3, (HL)
        _ => Instruction::new(IN::SET, AM::R, RT::A, RT::NONE, CT::NONE, None),  // 0xDF: SET 3, A
    }
}

/// The prefixed opcodes `0xE0..=0xEF`.
pub(crate) fn row_e0(opcode: u8) -> (inst: Instruction)
    requires
        0xE0 <= opcode <= 0xEF,
    ensures
        inst == cb_entry(opcode),
{
    proof {
        lemma_opcode_fields(opcode);
    }
    match opcode {
        0xE0 => Instruction::new(IN::SET, AM::R, RT::B, RT::NONE, CT::NONE, None),  // SET 4, B
        0xE1 => Instruction::new(IN::SET, AM::R, RT::C, RT::NONE, CT::NONE, None),  // SET 4, C
        0xE2 => Instruction::new(IN::SET, AM::R, RT::D, RT::NONE, CT::NONE, None),  // SET 4, D
        0xE3 => Instruction::new(IN::SET, AM::R, RT::E, RT::NONE, CT::NONE, None),  // SET 4, E
        0xE4 => Instruction::new(IN::SET, AM::R, RT::H, RT::NONE, CT::NONE, None),  // SET 4, H
        0xE5 => Instruction::new(IN::SET, AM::R, RT::L, RT::NONE, CT::NONE, None),  // SET 4, L
        0xE6 => Instruction::new(IN::SET, AM::MR, RT::HL, RT::NONE, CT::NONE, None),  // SET 4, (HL)
        0xE7 => Instruction::new(IN::SET, AM::R, RT::A, RT::NONE, CT::NONE, None),  // SET 4, A
        0xE8 => Instruction::new(IN::SET, AM::R, RT::B, RT::NONE, CT::NONE, None),  // SET 5, B
        0xE9 => Instruction::new(IN::SET, AM::R, RT::C, RT::NONE, CT::NONE, None),  // SET 5, C
        0xEA => Instruction::new(IN::SET, AM::R, RT::D, RT::NONE, CT::NONE, None),  // SET 5, D
        0xEB => Instruction::new(IN::SET, AM::R, RT::E, RT::NONE, CT::NONE, None),  // SET 5, E
        0xEC => Instruction::new(IN::SET, AM::R, RT::H, RT::NONE, CT::NONE, None),  // SET 5, H
        0xED => Instruction::new(IN::SET, AM::R, RT::L, RT::NONE, CT::NONE, None),  // SET 5, L
        0xEE => Instruction::new(IN::SET, AM::MR, RT::HL, RT::NONE, CT::NONE, None),  // SET 5, (HL)
        _ => Instruction::new(IN::SET, AM::R, RT::A, RT::NONE, CT::NONE, None),  // 0xEF: SET 5, A
    }
}

/// The prefixed opcodes `0xF0..=0xFF`.
pub(crate) fn row_f0(opcode: u8) -> (inst: Instruction)
    requires
        0xF0 <= opcode <= 0xFF,
    ensures
        inst == cb_entry(opcode),
{
    proof {
        lemma_opcode_fields(opcode);
    }
    match opcode {
        0xF0 => Instruction::new(IN::SET, AM::R, RT::B, RT::NONE, CT::NONE, None),  // SET 6, B
        0xF1 => Instruction::new(IN::SET, AM::R, RT::C, RT::NONE, CT::NONE, None),  // SET 6, C
        0xF2 => Instruction::new(IN::SET, AM::R, RT::D, RT::NONE, CT::NONE, None),  // SET 6, D
        0xF3 => Instruction::new(IN::SET, AM::R, RT::E, RT::NONE, CT::NONE, None),  // SET 6, E
        0xF4 => Instruction::new(IN::SET, AM::R, RT::H, RT::NONE, CT::NONE, None),  // SET 6, H
        0xF5 => Instruction::new(IN::SET, AM::R, RT::L, RT::NONE, CT::NONE, None),  // SET 6, L
        0xF6 => Instruction::new(IN::SET, AM::MR, RT::HL, RT::NONE, CT::NONE, None),  // SET 6, (HL)
        0xF7 => Instruction::new(IN::SET, AM::R, RT::A, RT::NONE, CT::NONE, None),  // SET 6, A
        0xF8 => Instruction::new(IN::SET, AM::R, RT::B, RT::NONE, CT::NONE, None),  // SET 7, B
        0xF9 => Instruction::new(IN::SET, AM::R, RT::C, RT::NONE, CT::NONE, None),  // SET 7, C
        0xFA => Instruction::new(IN::SET, AM::R, RT::D, RT::NONE, CT::NONE, None),  // SET 7, D
        0xFB => Instruction::new(IN::SET, AM::R, RT::E, RT::NONE, CT::NONE, None),  // SET 7, E
        0xFC => Instruction::new(IN::SET, AM::R, RT::H, RT::NONE, CT::NONE, None),  // SET 7, H
        0xFD => Instruction::new(IN::SET, AM::R, RT::L, RT::NONE, CT::NONE, None),  // SET 7, L
        0xFE => Instruction::new(IN::SET, AM::MR, RT::HL, RT::NONE, CT::NONE, None),  // SET 7, (HL)
        _ => Instruction::new(IN::SET, AM::R, RT::A, RT::NONE, CT::NONE, None),  // 0xFF: SET 7, A
    }
}

} // verus!
