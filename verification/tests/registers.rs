use gb_cpu::registers::CpuFlag::{C, H, N, Z};
use gb_cpu::registers::{CpuFlag, Flags, GbSpeed, RegType, Registers};

#[test]
fn wide_registers() {
    let mut reg = Registers::new();
    reg.a = 0x12;
    reg.setf(0x23);
    reg.b = 0x33;
    reg.c = 0x46;
    reg.d = 0x56;
    reg.e = 0x67;
    reg.h = 0x78;
    reg.l = 0x89;
    assert_eq!(reg.af(), 0x1220);
    assert_eq!(reg.bc(), 0x3346);
    assert_eq!(reg.de(), 0x5667);
    assert_eq!(reg.hl(), 0x7889);

    reg.setaf(0x1111);
    reg.setbc(0x1111);
    reg.setde(0x1111);
    reg.sethl(0x1111);
    assert_eq!(reg.af(), 0x1110);
    assert_eq!(reg.bc(), 0x1111);
    assert_eq!(reg.de(), 0x1111);
    assert_eq!(reg.hl(), 0x1111);
}

#[test]
fn flags() {
    let mut reg = Registers::new();
    let flags = [C, H, N, Z];

    // check goodness of flags
    assert_eq!(reg.f() & 0x0f, 0);

    reg.setf(0x00);
    for i in 0..4 {
        let mask = flags[i];
        assert_eq!(reg.getflag(&mask), false);
        reg.flag(&mask, true);
        assert_eq!(reg.getflag(&mask), true);
        reg.flag(&mask, false);
        assert_eq!(reg.getflag(&mask), false);
    }
}

#[test]
fn hl_special() {
    let mut reg = Registers::new();
    reg.sethl(0x1234);
    assert_eq!(reg.hl(), 0x1234);
    assert_eq!(reg.hld(), 0x1234);
    assert_eq!(reg.hld(), 0x1233);
    assert_eq!(reg.hld(), 0x1232);
    assert_eq!(reg.hli(), 0x1231);
    assert_eq!(reg.hli(), 0x1232);
    assert_eq!(reg.hli(), 0x1233);
    assert_eq!(reg.hli(), 0x1234);
}

#[test]
fn power_on_values() {
    let reg = Registers::new();
    assert_eq!(reg.a, 0x01);
    assert_eq!(reg.f(), 0xB0);
    assert_eq!(reg.b, 0x00);
    assert_eq!(reg.c, 0x13);
    assert_eq!(reg.d, 0x00);
    assert_eq!(reg.e, 0xD8);
    assert_eq!(reg.h, 0x01);
    assert_eq!(reg.l, 0x4D);
    assert_eq!(reg.sp, 0xFFFE);
    assert_eq!(reg.pc, 0x0100);
    assert!(reg.getflag(&Z));
    assert!(!reg.getflag(&N));
    assert!(reg.getflag(&H));
    assert!(reg.getflag(&C));
}

#[test]
fn flag_masks() {
    assert_eq!(CpuFlag::Z.mask(), 0x80);
    assert_eq!(CpuFlag::N.mask(), 0x40);
    assert_eq!(CpuFlag::H.mask(), 0x20);
    assert_eq!(CpuFlag::C.mask(), 0x10);
}

#[test]
fn speed_multipliers() {
    assert_eq!(GbSpeed::Single.multiplier(), 1);
    assert_eq!(GbSpeed::Double.multiplier(), 2);
}

#[test]
fn flag_set_then_clear_restores_flag_byte() {
    for bits in 0..16u8 {
        for flag in [Z, N, H, C] {
            let mut reg = Registers::new();
            reg.setf(bits << 4);
            if reg.getflag(&flag) {
                continue;
            }
            let before = reg.f();
            reg.flag(&flag, true);
            assert_eq!(reg.f(), before | flag.mask());
            assert_eq!(reg.f() & 0x0F, 0);
            reg.flag(&flag, false);
            assert_eq!(reg.f(), before);
            assert_eq!(reg.f() & 0x0F, 0);
        }
    }
}

#[test]
fn flag_clear_of_set_flag_does_not_restore() {
    let mut reg = Registers::new();
    assert_eq!(reg.f(), 0xB0);
    reg.flag(&Z, true);
    reg.flag(&Z, false);
    assert_eq!(reg.f(), 0x30);
}

#[test]
fn setf_drops_low_nibble() {
    let mut reg = Registers::new();
    reg.setf(0xFF);
    assert_eq!(reg.f(), 0xF0);
    reg.setf(0x0F);
    assert_eq!(reg.f(), 0x00);
}

#[test]
fn pair_store_then_read() {
    let mut reg = Registers::new();
    for v in [0x0000u16, 0x0001, 0x00FF, 0x0100, 0x1234, 0x8000, 0xABCD, 0xFFFF] {
        reg.sethl(v);
        assert_eq!(reg.hl(), v);
        reg.setbc(v);
        assert_eq!(reg.bc(), v);
        reg.setde(v);
        assert_eq!(reg.de(), v);
        reg.setaf(v);
        assert_eq!(reg.af(), v & 0xFFF0);
        assert_eq!(reg.f() & 0x0F, 0);
    }
}

#[test]
fn pair_store_splits_bytes() {
    let mut reg = Registers::new();
    reg.setbc(0xA1B2);
    assert_eq!((reg.b, reg.c), (0xA1, 0xB2));
    reg.setde(0xC3D4);
    assert_eq!((reg.d, reg.e), (0xC3, 0xD4));
    reg.sethl(0xE5F6);
    assert_eq!((reg.h, reg.l), (0xE5, 0xF6));
    reg.setaf(0x9876);
    assert_eq!((reg.a, reg.f()), (0x98, 0x70));
}

#[test]
fn hl_steps_wrap_around() {
    let mut reg = Registers::new();
    reg.sethl(0x0000);
    assert_eq!(reg.hld(), 0x0000);
    assert_eq!(reg.hl(), 0xFFFF);
    assert_eq!(reg.hli(), 0xFFFF);
    assert_eq!(reg.hl(), 0x0000);
}

#[test]
fn set_flags_and_read_back() {
    let mut reg = Registers::new();
    reg.set_flags(Flags { z: false, n: true, h: false, c: true });
    assert_eq!(reg.f(), 0x50);
    assert_eq!(reg.flags(), Flags { z: false, n: true, h: false, c: true });
    reg.set_flags(Flags { z: true, n: false, h: true, c: false });
    assert_eq!(reg.f(), 0xA0);
    assert_eq!(reg.a, 0x01);
}

#[test]
fn read_by_name() {
    let mut reg = Registers::new();
    reg.a = 0x12;
    reg.setf(0xF0);
    reg.setbc(0x3456);
    reg.setde(0x789A);
    reg.sethl(0xBCDE);
    reg.sp = 0xFFF0;
    reg.pc = 0x0150;
    assert_eq!(reg.read(RegType::NONE), 0);
    assert_eq!(reg.read(RegType::A), 0x12);
    assert_eq!(reg.read(RegType::F), 0xF0);
    assert_eq!(reg.read(RegType::B), 0x34);
    assert_eq!(reg.read(RegType::C), 0x56);
    assert_eq!(reg.read(RegType::D), 0x78);
    assert_eq!(reg.read(RegType::E), 0x9A);
    assert_eq!(reg.read(RegType::H), 0xBC);
    assert_eq!(reg.read(RegType::L), 0xDE);
    assert_eq!(reg.read(RegType::AF), 0x12F0);
    assert_eq!(reg.read(RegType::BC), 0x3456);
    assert_eq!(reg.read(RegType::DE), 0x789A);
    assert_eq!(reg.read(RegType::HL), 0xBCDE);
    assert_eq!(reg.read(RegType::SP), 0xFFF0);
    assert_eq!(reg.read(RegType::PC), 0x0150);
    assert_eq!(reg.read8(RegType::HL), 0xDE);
    assert_eq!(reg.read8(RegType::L), 0xDE);
}

#[test]
fn write_by_name() {
    let mut reg = Registers::new();
    reg.write(RegType::A, 0x1234);
    assert_eq!(reg.a, 0x34);
    reg.write(RegType::F, 0x00FF);
    assert_eq!(reg.f(), 0xF0);
    reg.write(RegType::B, 0x01);
    reg.write(RegType::C, 0x02);
    reg.write(RegType::D, 0x03);
    reg.write(RegType::E, 0x04);
    reg.write(RegType::H, 0x05);
    reg.write(RegType::L, 0x06);
    assert_eq!(reg.bc(), 0x0102);
    assert_eq!(reg.de(), 0x0304);
    assert_eq!(reg.hl(), 0x0506);
    reg.write(RegType::AF, 0xABCD);
    assert_eq!(reg.af(), 0xABC0);
    reg.write(RegType::BC, 0x1111);
    reg.write(RegType::DE, 0x2222);
    reg.write(RegType::HL, 0x3333);
    reg.write(RegType::SP, 0x4444);
    reg.write(RegType::PC, 0x5555);
    assert_eq!(reg.bc(), 0x1111);
    assert_eq!(reg.de(), 0x2222);
    assert_eq!(reg.hl(), 0x3333);
    assert_eq!(reg.sp, 0x4444);
    assert_eq!(reg.pc, 0x5555);
    let before = (reg.af(), reg.bc(), reg.de(), reg.hl(), reg.sp, reg.pc);
    reg.write(RegType::NONE, 0xFFFF);
    assert_eq!((reg.af(), reg.bc(), reg.de(), reg.hl(), reg.sp, reg.pc), before);
}

#[test]
fn wide_names() {
    for r in [RegType::AF, RegType::BC, RegType::DE, RegType::HL, RegType::SP, RegType::PC] {
        assert!(r.wide());
    }
    for r in [
        RegType::NONE,
        RegType::A,
        RegType::F,
        RegType::B,
        RegType::C,
        RegType::D,
        RegType::E,
        RegType::H,
        RegType::L,
    ] {
        assert!(!r.wide());
    }
}
