use gb_cpu::decode::{
    fetch_and_decode, fetch_and_decode_stalled, DecodedInstruction, Operand,
};
use gb_cpu::instructions::{
    decode_cb_opcode, decode_opcode, AddressingMode, InstructionType, RegType,
};
use gb_cpu::memory::{FlatMemory, Mmu};
use gb_cpu::registers::Registers;

fn flat_program(at: u16, bytes: &[u8]) -> FlatMemory {
    let mut mem = FlatMemory::new();
    for (i, byte) in bytes.iter().enumerate() {
        mem.write(at.wrapping_add(i as u16), *byte);
    }
    mem
}

fn state(regs: &Registers) -> (u16, u16, u16, u16, u16) {
    (regs.af(), regs.bc(), regs.de(), regs.hl(), regs.sp)
}

#[test]
fn fetch_without_operand() {
    let mem = flat_program(0x0100, &[0x00]);
    let mut regs = Registers::new();
    let before = state(&regs);
    let d = fetch_and_decode(&mut regs, &mem);
    assert_eq!(
        d,
        DecodedInstruction {
            pc: 0x0100,
            opcode: 0x00,
            prefixed: false,
            inst: decode_opcode(0x00),
            operand: Operand::Absent,
        }
    );
    assert_eq!(regs.pc, 0x0101);
    assert_eq!(state(&regs), before);
}

#[test]
fn fetch_immediate_byte() {
    let mem = flat_program(0x0100, &[0x3E, 0x42]);
    let mut regs = Registers::new();
    let before = state(&regs);
    let d = fetch_and_decode(&mut regs, &mem);
    assert_eq!(d.inst.instr_type, InstructionType::LD);
    assert_eq!(d.inst.mode, AddressingMode::R_D8);
    assert_eq!(d.inst.reg_1, RegType::A);
    assert_eq!(d.operand, Operand::Byte(0x42));
    assert_eq!(d.pc, 0x0100);
    assert_eq!(regs.pc, 0x0102);
    assert_eq!(state(&regs), before);
}

#[test]
fn fetch_immediate_word() {
    let mem = flat_program(0x0100, &[0x01, 0x34, 0x12]);
    let mut regs = Registers::new();
    let d = fetch_and_decode(&mut regs, &mem);
    assert_eq!(d.inst, decode_opcode(0x01));
    assert_eq!(d.operand, Operand::Word(0x1234));
    assert_eq!(regs.pc, 0x0103);
}

#[test]
fn fetch_absolute_address() {
    let mem = flat_program(0x0100, &[0xC3, 0x50, 0x01]);
    let mut regs = Registers::new();
    let d = fetch_and_decode(&mut regs, &mem);
    assert_eq!(d.inst.instr_type, InstructionType::JP);
    assert_eq!(d.operand, Operand::Word(0x0150));
    assert_eq!(regs.pc, 0x0103);
}

#[test]
fn fetch_signed_displacement() {
    let mem = flat_program(0x0100, &[0x20, 0xFE, 0x18, 0x7F, 0x18, 0x80]);
    let mut regs = Registers::new();
    let d = fetch_and_decode(&mut regs, &mem);
    assert_eq!(d.inst.instr_type, InstructionType::JR);
    assert_eq!(d.operand, Operand::Offset(-2));
    assert_eq!(regs.pc, 0x0102);
    let d = fetch_and_decode(&mut regs, &mem);
    assert_eq!(d.operand, Operand::Offset(127));
    let d = fetch_and_decode(&mut regs, &mem);
    assert_eq!(d.operand, Operand::Offset(-128));
    assert_eq!(d.pc, 0x0104);
    assert_eq!(regs.pc, 0x0106);
}

#[test]
fn fetch_stack_pointer_displacement() {
    let mem = flat_program(0x0100, &[0xE8, 0xFF, 0xF8, 0x02]);
    let mut regs = Registers::new();
    let d = fetch_and_decode(&mut regs, &mem);
    assert_eq!(d.inst.mode, AddressingMode::HL_SPR);
    assert_eq!(d.operand, Operand::Offset(-1));
    let d = fetch_and_decode(&mut regs, &mem);
    assert_eq!(d.operand, Operand::Offset(2));
    assert_eq!(regs.pc, 0x0104);
}

#[test]
fn fetch_zero_page_offset() {
    let mem = flat_program(0x0100, &[0xE0, 0x80, 0xF0, 0x44]);
    let mut regs = Registers::new();
    let d = fetch_and_decode(&mut regs, &mem);
    assert_eq!(d.inst.instr_type, InstructionType::LDH);
    assert_eq!(d.operand, Operand::Byte(0x80));
    let d = fetch_and_decode(&mut regs, &mem);
    assert_eq!(d.operand, Operand::Byte(0x44));
    assert_eq!(regs.pc, 0x0104);
}

#[test]
fn fetch_prefixed() {
    let mem = flat_program(0x0100, &[0xCB, 0x37]);
    let mut regs = Registers::new();
    let before = state(&regs);
    let d = fetch_and_decode(&mut regs, &mem);
    assert_eq!(
        d,
        DecodedInstruction {
            pc: 0x0100,
            opcode: 0x37,
            prefixed: true,
            inst: decode_cb_opcode(0x37),
            operand: Operand::Absent,
        }
    );
    assert_eq!(d.inst.instr_type, InstructionType::SWAP);
    assert_eq!(regs.pc, 0x0102);
    assert_eq!(state(&regs), before);
}

#[test]
fn prefix_is_never_an_instruction() {
    for second in 0..=255u8 {
        let mem = flat_program(0x0100, &[0xCB, second]);
        let mut regs = Registers::new();
        let d = fetch_and_decode(&mut regs, &mem);
        assert!(d.prefixed);
        assert_eq!(d.opcode, second);
        assert_ne!(d.inst.instr_type, InstructionType::CB);
        assert_eq!(d.inst, decode_cb_opcode(second));
        assert_eq!(regs.pc, 0x0102);
    }
}

#[test]
fn fetch_unassigned_opcode_succeeds() {
    let mem = flat_program(0x0100, &[0xD3]);
    let mut regs = Registers::new();
    let d = fetch_and_decode(&mut regs, &mem);
    assert_eq!(d.inst.instr_type, InstructionType::ERR);
    assert_eq!(d.operand, Operand::Absent);
    assert_eq!(regs.pc, 0x0101);
}

#[test]
fn fetch_wraps_at_the_top_of_memory() {
    let mut mem = FlatMemory::new();
    mem.write(0xFFFF, 0x01);
    mem.write(0x0000, 0xCD);
    mem.write(0x0001, 0xAB);
    let mut regs = Registers::new();
    regs.pc = 0xFFFF;
    let d = fetch_and_decode(&mut regs, &mem);
    assert_eq!(d.operand, Operand::Word(0xABCD));
    assert_eq!(d.pc, 0xFFFF);
    assert_eq!(regs.pc, 0x0002);
}

#[test]
fn every_base_opcode_has_its_length() {
    for opcode in 0..=255u8 {
        if opcode == 0xCB {
            continue;
        }
        let mem = flat_program(0x0100, &[opcode, 0x11, 0x22]);
        let mut regs = Registers::new();
        let d = fetch_and_decode(&mut regs, &mem);
        assert_eq!(d.inst, decode_opcode(opcode));
        assert!(!d.prefixed);
        let len = match d.operand {
            Operand::Absent => 1,
            Operand::Byte(b) => {
                assert_eq!(b, 0x11);
                2
            }
            Operand::Offset(o) => {
                assert_eq!(o, 0x11);
                2
            }
            Operand::Word(w) => {
                assert_eq!(w, 0x2211);
                3
            }
        };
        assert_eq!(regs.pc, 0x0100 + len);
    }
}

#[test]
fn stalled_fetch_reads_the_opcode_twice() {
    // LD A, d8 takes its own opcode as the operand, and the byte that
    // follows is the next instruction.
    let mem = flat_program(0x0100, &[0x3E, 0x14]);
    let mut regs = Registers::new();
    let d = fetch_and_decode_stalled(&mut regs, &mem);
    assert_eq!(d.inst, decode_opcode(0x3E));
    assert_eq!(d.operand, Operand::Byte(0x3E));
    assert_eq!(d.pc, 0x0100);
    assert_eq!(regs.pc, 0x0101);
    let d = fetch_and_decode(&mut regs, &mem);
    assert_eq!(d.inst, decode_opcode(0x14));
    assert_eq!(regs.pc, 0x0102);
}

#[test]
fn stalled_fetch_of_a_one_byte_instruction_stays() {
    let mem = flat_program(0x0100, &[0x3C]);
    let mut regs = Registers::new();
    let d = fetch_and_decode_stalled(&mut regs, &mem);
    assert_eq!(d.inst, decode_opcode(0x3C));
    assert_eq!(regs.pc, 0x0100);
}

#[test]
fn operand_accessors() {
    assert_eq!(Operand::Byte(7).as_byte(), 7);
    assert_eq!(Operand::Word(0x1234).as_word(), 0x1234);
    assert_eq!(Operand::Offset(-5).as_offset(), -5);
    assert_eq!(Operand::Absent.as_byte(), 0);
    assert_eq!(Operand::Absent.as_word(), 0);
    assert_eq!(Operand::Absent.as_offset(), 0);
    assert_eq!(Operand::Word(0x1234).as_byte(), 0);
    assert_eq!(Operand::Byte(7).as_word(), 0);
    assert_eq!(Operand::Byte(7).as_offset(), 0);
}
