use rs_boy::cpu_ops::{get_cb_ticks, get_ticks};
use rs_boy::registers::{Flag, RegisterOperation, Registers};

fn zeroed() -> Registers {
    Registers { a: 0, f: 0, b: 0, c: 0, d: 0, e: 0, h: 0, l: 0, pc: 0, sp: 0 }
}

#[test]
fn register_pairs_read_back_what_was_written() {
    let mut r = zeroed();
    r.set_hl(0xbeef);
    assert_eq!((r.h, r.l), (0xbe, 0xef));
    assert_eq!(r.get_hl(), 0xbeef);
    r.set_bc(0x1234);
    assert_eq!(r.get_bc(), 0x1234);
    r.set_de(0x00ff);
    assert_eq!(r.get_de(), 0x00ff);
    r.set_af(0xff00);
    assert_eq!(r.get_af(), 0xff00);
    // the other pairs are untouched
    assert_eq!(r.get_hl(), 0xbeef);
}

#[test]
fn step_pc_returns_the_old_counter() {
    let mut r = zeroed();
    r.set_pc(0x100);
    assert_eq!(r.step_pc(), 0x100);
    assert_eq!(r.pc, 0x101);
}

#[test]
fn add16_sets_half_carry_and_carry() {
    // Z is kept, N cleared, H from bit 11, C from bit 15
    assert_eq!(Registers::add(0x0fff, 0x0001, 0x80 | 0x40), (0x1000, 0x80 | 0x20));
    assert_eq!(Registers::add(0xffff, 0x0001, 0x00), (0x0000, 0x20 | 0x10));
    assert_eq!(Registers::add(0x0001, 0x0001, 0x00), (0x0002, 0x00));
}

#[test]
fn alu_add_and_sub_flags() {
    let mut a: u8 = 0x0f;
    assert_eq!(a.add(0x01), 0x20);
    assert_eq!(a, 0x10);
    let mut a: u8 = 0xff;
    assert_eq!(a.add(0x01), 0x80 | 0x20 | 0x10);
    assert_eq!(a, 0);
    let mut a: u8 = 0x10;
    assert_eq!(a.sub(0x01), 0x40 | 0x20);
    assert_eq!(a, 0x0f);
    let mut a: u8 = 0x00;
    assert_eq!(a.sub(0x01), 0x40 | 0x20 | 0x10);
    assert_eq!(a, 0xff);
    assert_eq!(0x42u8.cp(0x42), 0x80 | 0x40);
}

#[test]
fn alu_logic_flags() {
    let mut a: u8 = 0b1100;
    assert_eq!(a.and(0b1010), 0x20);
    assert_eq!(a, 0b1000);
    let mut a: u8 = 0b1100;
    assert_eq!(a.xor(0b1100), 0x80);
    assert_eq!(a, 0);
    let mut a: u8 = 0;
    assert_eq!(a.or(0), 0x80);
    let mut a: u8 = 0x0f;
    assert_eq!(a.inc(0x10), 0x20 | 0x10);
    assert_eq!(a, 0x10);
    let mut a: u8 = 0x01;
    assert_eq!(a.dec(0x00), 0x80 | 0x40);
    assert_eq!(a, 0);
    let mut a: u8 = 0x35;
    assert_eq!(a.complement(0x80), 0x80 | 0x40 | 0x20);
    assert_eq!(a, 0xca);
}

#[test]
fn bit_operations() {
    let mut a: u8 = 0;
    a.set_bit(3, true);
    assert_eq!(a, 0b1000);
    a.set_bit(3, false);
    assert_eq!(a, 0);
    assert!(0x10u8.has_flag(Flag::C));
    assert!(!0x10u8.has_flag(Flag::Z));
    // BIT: Z set when the bit is clear, H set, C kept
    assert_eq!(0b0000_0100u8.bit(2, 0x10), 0x20 | 0x10);
    assert_eq!(0b0000_0000u8.bit(2, 0x00), 0x80 | 0x20);
}

#[test]
fn instruction_timings() {
    assert_eq!(get_ticks(0x00), 4);
    assert_eq!(get_ticks(0x01), 12);
    assert_eq!(get_cb_ticks(0x00), 8);
}
