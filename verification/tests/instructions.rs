use gb_cpu::instructions::{
    cb_instruction_table, decode_cb_opcode, decode_opcode, instruction_table, AddressingMode,
    ConditionType, Instruction, InstructionType, RegType,
};
use gb_cpu::instructions::AddressingMode as AM;
use gb_cpu::instructions::ConditionType as CT;
use gb_cpu::instructions::InstructionType as IN;
use gb_cpu::instructions::RegType as RT;

// Verify total no. of instructions
#[test]
fn instruction_table_size() {
    assert_eq!(
        instruction_table().len(),
        0x100,
        "Instruction table must contain 256 opcodes (0x00 to 0xFF)"
    );
}

// Check simple NOP instruction (0x00)
#[test]
fn text_0x00_nop() {
    let table = instruction_table();
    let instr = &table[0x00];
    assert_eq!(instr.instr_type, InstructionType::NOP, "0x00 should be NOP");
    assert_eq!(instr.mode, AddressingMode::IMP, "0x00 should be IMP");
    assert_eq!(instr.cond, ConditionType::NONE);
    assert_eq!(instr.reg_1, RegType::NONE);
}

// Check simple Load instruction (0x01: LD BC, d16)
#[test]
fn instructions_text_0x00_nop() {
    let table = instruction_table();
    let instr = &table[0x01];
    assert_eq!(instr.instr_type, InstructionType::LD, "0x01 should be LD");
    assert_eq!(instr.mode, AddressingMode::R_D16, "0x00 should be R_D16");
    assert_eq!(instr.reg_1, RegType::BC, "0x01 target should be BC");
    assert_eq!(instr.reg_2, RegType::NONE);
}

// Check a conditional jump instruction (0x20: JR NZ, r8)
#[test]
fn test_0x20_jr_nz_r8() {
    let table = instruction_table();
    let instr = &table[0x20];
    assert_eq!(instr.instr_type, InstructionType::JR, "0x20 should be JR");
    assert_eq!(instr.mode, AddressingMode::D8, "0x20 should be D8 mode (relative jump)");
    assert_eq!(instr.cond, ConditionType::NZ, "0x20 should be conditional NZ");
}

// Check the prefix instruction (0xCB)
#[test]
fn test_0xcb_prefix() {
    let table = instruction_table();
    let instr = &table[0xCB];
    assert_eq!(instr.instr_type, InstructionType::CB, "0xCB should be PREFIX CB");
    assert_eq!(instr.mode, AddressingMode::CB, "0xCB should have CB addressing mode");
}

// Check an RST instruction (0xFF: RST 38H) which uses the 'param' field
#[test]
fn test_0xff_rst_38h() {
    let table = instruction_table();
    let instr = &table[0xFF];
    assert_eq!(instr.instr_type, InstructionType::RST, "0xFF should be RST");
    assert_eq!(instr.mode, AddressingMode::IMP, "0xFF should be IMP");
    assert_eq!(instr.param, Some(0x38), "0xFF RST target should be 0x38");
}

#[test]
fn stop_is_at_0x10() {
    let instr = decode_opcode(0x10);
    assert_eq!(instr.instr_type, InstructionType::STOP);
    assert_eq!(instr.mode, AddressingMode::IMP);
    assert_eq!(instr.reg_1, RegType::NONE);
    assert_eq!(instr.reg_2, RegType::NONE);
}

#[test]
fn tables_agree_with_lookups() {
    let base = instruction_table();
    let cb = cb_instruction_table();
    assert_eq!(cb.len(), 0x100);
    for opcode in 0..=255u8 {
        assert_eq!(base[opcode as usize], decode_opcode(opcode));
        assert_eq!(cb[opcode as usize], decode_cb_opcode(opcode));
    }
}

#[test]
fn unassigned_opcodes_are_invalid() {
    let unassigned = [0xD3u8, 0xDB, 0xDD, 0xE3, 0xE4, 0xEB, 0xEC, 0xED, 0xF4, 0xFC, 0xFD];
    for opcode in 0..=255u8 {
        let instr = decode_opcode(opcode);
        if unassigned.contains(&opcode) {
            assert_eq!(
                instr,
                Instruction::new(
                    InstructionType::ERR,
                    AddressingMode::IMP,
                    RegType::NONE,
                    RegType::NONE,
                    ConditionType::NONE,
                    None
                )
            );
        } else {
            assert_ne!(instr.instr_type, InstructionType::ERR);
        }
        assert_ne!(instr.instr_type, InstructionType::NONE);
        assert_eq!(instr.instr_type == InstructionType::CB, opcode == 0xCB);
    }
}

#[test]
fn restart_targets() {
    let targets = [0x00u8, 0x08, 0x10, 0x18, 0x20, 0x28, 0x30, 0x38];
    for (i, target) in targets.iter().enumerate() {
        let instr = decode_opcode(0xC7 + 8 * i as u8);
        assert_eq!(instr.instr_type, InstructionType::RST);
        assert_eq!(instr.param, Some(*target));
    }
    for opcode in 0..=255u8 {
        if decode_opcode(opcode).instr_type != InstructionType::RST {
            assert_eq!(decode_opcode(opcode).param, None);
        }
        assert_eq!(decode_cb_opcode(opcode).param, None);
    }
}

#[test]
fn load_block() {
    let regs = [
        RegType::B,
        RegType::C,
        RegType::D,
        RegType::E,
        RegType::H,
        RegType::L,
        RegType::HL,
        RegType::A,
    ];
    for opcode in 0x40..=0x7Fu8 {
        let instr = decode_opcode(opcode);
        let dst = regs[((opcode >> 3) & 7) as usize];
        let src = regs[(opcode & 7) as usize];
        if opcode == 0x76 {
            assert_eq!(instr.instr_type, InstructionType::HALT);
            assert_eq!(instr.mode, AddressingMode::IMP);
            continue;
        }
        assert_eq!(instr.instr_type, InstructionType::LD);
        assert_eq!(instr.reg_1, dst);
        assert_eq!(instr.reg_2, src);
        let mode = if dst == RegType::HL {
            AddressingMode::MR_R
        } else if src == RegType::HL {
            AddressingMode::R_MR
        } else {
            AddressingMode::R_R
        };
        assert_eq!(instr.mode, mode);
    }
}

#[test]
fn accumulator_block() {
    let kinds = [
        InstructionType::ADD,
        InstructionType::ADC,
        InstructionType::SUB,
        InstructionType::SBC,
        InstructionType::AND,
        InstructionType::XOR,
        InstructionType::OR,
        InstructionType::CP,
    ];
    for opcode in 0x80..=0xBFu8 {
        let instr = decode_opcode(opcode);
        assert_eq!(instr.instr_type, kinds[((opcode >> 3) & 7) as usize]);
        assert_eq!(instr.reg_1, RegType::A);
    }
    for (i, kind) in kinds.iter().enumerate() {
        let instr = decode_opcode(0xC6 + 8 * i as u8);
        assert_eq!(instr.instr_type, *kind);
        assert_eq!(instr.mode, AddressingMode::R_D8);
        assert_eq!(instr.reg_1, RegType::A);
    }
}

#[test]
fn selected_base_entries() {
    let e = |k, m, r1, r2, c| Instruction::new(k, m, r1, r2, c, None);
    assert_eq!(decode_opcode(0x08), e(IN::LD, AM::A16_R, RT::NONE, RT::SP, CT::NONE));
    assert_eq!(decode_opcode(0x09), e(IN::ADD, AM::R_R, RT::HL, RT::BC, CT::NONE));
    assert_eq!(decode_opcode(0x18), e(IN::JR, AM::D8, RT::NONE, RT::NONE, CT::NONE));
    assert_eq!(decode_opcode(0x22), e(IN::LD, AM::HLI_R, RT::HL, RT::A, CT::NONE));
    assert_eq!(decode_opcode(0x2A), e(IN::LD, AM::R_HLI, RT::A, RT::HL, CT::NONE));
    assert_eq!(decode_opcode(0x32), e(IN::LD, AM::HLD_R, RT::HL, RT::A, CT::NONE));
    assert_eq!(decode_opcode(0x3A), e(IN::LD, AM::R_HLD, RT::A, RT::HL, CT::NONE));
    assert_eq!(decode_opcode(0x34), e(IN::INC, AM::MR, RT::HL, RT::NONE, CT::NONE));
    assert_eq!(decode_opcode(0x36), e(IN::LD, AM::MR_D8, RT::HL, RT::NONE, CT::NONE));
    assert_eq!(decode_opcode(0x3C), e(IN::INC, AM::R, RT::A, RT::NONE, CT::NONE));
    assert_eq!(decode_opcode(0xC1), e(IN::POP, AM::R, RT::BC, RT::NONE, CT::NONE));
    assert_eq!(decode_opcode(0xC5), e(IN::PUSH, AM::R, RT::BC, RT::NONE, CT::NONE));
    assert_eq!(decode_opcode(0xF1), e(IN::POP, AM::R, RT::AF, RT::NONE, CT::NONE));
    assert_eq!(decode_opcode(0xC3), e(IN::JP, AM::D16, RT::NONE, RT::NONE, CT::NONE));
    assert_eq!(decode_opcode(0xDA), e(IN::JP, AM::D16, RT::NONE, RT::NONE, CT::C));
    assert_eq!(decode_opcode(0xCD), e(IN::CALL, AM::D16, RT::NONE, RT::NONE, CT::NONE));
    assert_eq!(decode_opcode(0xD4), e(IN::CALL, AM::D16, RT::NONE, RT::NONE, CT::NC));
    assert_eq!(decode_opcode(0xC8), e(IN::RET, AM::IMP, RT::NONE, RT::NONE, CT::Z));
    assert_eq!(decode_opcode(0xD9), e(IN::RETI, AM::IMP, RT::NONE, RT::NONE, CT::NONE));
    assert_eq!(decode_opcode(0xE0), e(IN::LDH, AM::A8_R, RT::NONE, RT::A, CT::NONE));
    assert_eq!(decode_opcode(0xF0), e(IN::LDH, AM::R_A8, RT::A, RT::NONE, CT::NONE));
    assert_eq!(decode_opcode(0xE2), e(IN::LD, AM::MR_R, RT::C, RT::A, CT::NONE));
    assert_eq!(decode_opcode(0xF2), e(IN::LD, AM::R_MR, RT::A, RT::C, CT::NONE));
    assert_eq!(decode_opcode(0xE8), e(IN::ADD, AM::HL_SPR, RT::SP, RT::NONE, CT::NONE));
    assert_eq!(decode_opcode(0xF8), e(IN::LD, AM::HL_SPR, RT::HL, RT::SP, CT::NONE));
    assert_eq!(decode_opcode(0xE9), e(IN::JP, AM::JPHL, RT::HL, RT::NONE, CT::NONE));
    assert_eq!(decode_opcode(0xF9), e(IN::LD, AM::R_R, RT::SP, RT::HL, CT::NONE));
    assert_eq!(decode_opcode(0xEA), e(IN::LD, AM::A16_R, RT::NONE, RT::A, CT::NONE));
    assert_eq!(decode_opcode(0xFA), e(IN::LD, AM::R_A16, RT::A, RT::NONE, CT::NONE));
    assert_eq!(decode_opcode(0xF3), e(IN::DI, AM::IMP, RT::NONE, RT::NONE, CT::NONE));
    assert_eq!(decode_opcode(0xFB), e(IN::EI, AM::IMP, RT::NONE, RT::NONE, CT::NONE));
}

#[test]
fn prefixed_table() {
    let regs = [
        RegType::B,
        RegType::C,
        RegType::D,
        RegType::E,
        RegType::H,
        RegType::L,
        RegType::HL,
        RegType::A,
    ];
    let shifts = [
        InstructionType::RLC,
        InstructionType::RRC,
        InstructionType::RL,
        InstructionType::RR,
        InstructionType::SLA,
        InstructionType::SRA,
        InstructionType::SWAP,
        InstructionType::SRL,
    ];
    for opcode in 0..=255u8 {
        let instr = decode_cb_opcode(opcode);
        let kind = match opcode >> 6 {
            0 => shifts[((opcode >> 3) & 7) as usize],
            1 => InstructionType::BIT,
            2 => InstructionType::RES,
            _ => InstructionType::SET,
        };
        assert_eq!(instr.instr_type, kind);
        assert_eq!(instr.reg_1, regs[(opcode & 7) as usize]);
        assert_eq!(instr.reg_2, RegType::NONE);
        assert_eq!(instr.cond, ConditionType::NONE);
        let mode = if opcode & 7 == 6 { AddressingMode::MR } else { AddressingMode::R };
        assert_eq!(instr.mode, mode);
    }
    assert_eq!(decode_cb_opcode(0x37).instr_type, InstructionType::SWAP);
    assert_eq!(decode_cb_opcode(0x7E).instr_type, InstructionType::BIT);
    assert_eq!(decode_cb_opcode(0x7E).mode, AddressingMode::MR);
}

#[test]
fn defaults() {
    assert_eq!(InstructionType::default(), InstructionType::NONE);
    assert_eq!(AddressingMode::default(), AddressingMode::IMP);
    assert_eq!(RegType::default(), RegType::NONE);
    assert_eq!(ConditionType::default(), ConditionType::NONE);
    assert_eq!(
        Instruction::default(),
        Instruction::new(
            InstructionType::NONE,
            AddressingMode::IMP,
            RegType::NONE,
            RegType::NONE,
            ConditionType::NONE,
            None
        )
    );
}
