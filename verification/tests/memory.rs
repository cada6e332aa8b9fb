use gb_cpu::memory::{read16, write16, FlatMemory, Mmu};

#[test]
fn flat_memory_starts_zeroed() {
    let mem = FlatMemory::new();
    for addr in [0x0000u16, 0x0001, 0x0100, 0x7FFF, 0x8000, 0xFF0F, 0xFFFE, 0xFFFF] {
        assert_eq!(mem.read(addr), 0);
    }
}

#[test]
fn flat_memory_reads_back_writes() {
    let mut mem = FlatMemory::new();
    mem.write(0x0000, 0x11);
    mem.write(0xFFFF, 0x22);
    mem.write(0x8000, 0x33);
    assert_eq!(mem.read(0x0000), 0x11);
    assert_eq!(mem.read(0xFFFF), 0x22);
    assert_eq!(mem.read(0x8000), 0x33);
    assert_eq!(mem.read(0x0001), 0x00);
    assert_eq!(mem.read(0xFFFE), 0x00);
    mem.write(0x8000, 0x44);
    assert_eq!(mem.read(0x8000), 0x44);
    assert_eq!(mem.read(0x0000), 0x11);
}

#[test]
fn words_are_little_endian() {
    let mut mem = FlatMemory::new();
    write16(&mut mem, 0xC000, 0xABCD);
    assert_eq!(mem.read(0xC000), 0xCD);
    assert_eq!(mem.read(0xC001), 0xAB);
    assert_eq!(read16(&mem, 0xC000), 0xABCD);
    mem.write(0x1234, 0x78);
    mem.write(0x1235, 0x56);
    assert_eq!(read16(&mem, 0x1234), 0x5678);
}

#[test]
fn words_wrap_at_the_top_of_memory() {
    let mut mem = FlatMemory::new();
    write16(&mut mem, 0xFFFF, 0x1234);
    assert_eq!(mem.read(0xFFFF), 0x34);
    assert_eq!(mem.read(0x0000), 0x12);
    assert_eq!(read16(&mem, 0xFFFF), 0x1234);
}
