use rs_boy::gameboy::memory::Memory as GbMemory;
use rs_boy::memory::Memory;

#[test]
fn windowed_memory_ram_reads_back() {
    let mut m = GbMemory::new();
    assert_eq!(m.get(0xc000), 0);
    m.write(0xc000, 0x12);
    m.write(0xdfff, 0x34);
    m.write(0xff80, 0x56);
    m.write(0xfffe, 0x78);
    m.write(0xffff, 0x1f);
    assert_eq!(m.get(0xc000), 0x12);
    assert_eq!(m.get(0xdfff), 0x34);
    assert_eq!(m.get(0xff80), 0x56);
    assert_eq!(m.get(0xfffe), 0x78);
    assert_eq!(m.get(0xffff), 0x1f);
    assert_eq!(m.get(0xc001), 0);
}

#[test]
fn windowed_memory_serial_registers() {
    let mut m = GbMemory::new();
    m.write(0xff01, b'H');
    m.write(0xff02, 0x81);
    assert_eq!(m.get(0xff01), b'H');
    assert_eq!(m.get(0xff02), 0x81);
    // ignored I/O writes are accepted
    m.write(0xff4d, 1);
    m.write(0xff30, 1);
    assert_eq!(m.get(0xff01), b'H');
}

fn rom() -> Vec<u8> {
    (0..0x10000usize).map(|i| (i / 0x4000) as u8).collect()
}

#[test]
fn memory_banks_and_ram() {
    let mut m = Memory::default_with_rom(rom());
    assert_eq!(m.get(0x0000), 0);
    assert_eq!(m.get(0x4000), 1);
    m.write(0x2000, 0x22);
    assert_eq!(m.get_rom(0x4000), 2);
    m.write(0x2000, 0);
    assert_eq!(m.get(0x4000), 1);
    m.write(0xc123, 9);
    assert_eq!(m.get(0xc123), 9);
    m.write_ffxx(0x80, 5);
    assert_eq!(m.get_ffxx(0x80), 5);
    m.write(0x8010, 0xab);
    m.write(0x8011, 0xcd);
    assert_eq!(m.get_tile_data(0x8000, 1, 0), (0xab, 0xcd));
}

#[test]
fn memory_dma_copies_into_oam() {
    let mut m = Memory::default_with_rom(rom());
    for i in 0..0xa0usize {
        m.write(0xc000 + i, i as u8);
    }
    m.write(0xff46, 0xc0);
    let t = m.get_oam_object(1);
    assert_eq!((t.y, t.x, t.tile_index, t.flags), (4, 5, 6, 7));
}

#[test]
fn power_on_memory_reads_zero() {
    let m = Memory::default_with_rom(vec![7u8; 0x8000]);
    for a in [0x8000usize, 0x97ff, 0x9800, 0x9fff, 0xc000, 0xdfff, 0xff80, 0xfffe, 0xffff] {
        assert_eq!(m.get(a), 0, "at {:#x}", a);
    }
    assert_eq!(m.get(0x0000), 7);
    assert_eq!(m.get(0x7fff), 7);
}
