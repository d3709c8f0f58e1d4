use rs_boy::gameboy::registers::operations::Operations;
use rs_boy::gameboy::registers::{set_flag, Registers};
use rs_boy::registers::Flag;

#[test]
fn boot_registers() {
    let r = Registers::new();
    assert_eq!(r.get_af(), 0x01b0);
    assert_eq!(r.get_bc(), 0x0013);
    assert_eq!(r.get_de(), 0x00d8);
    assert_eq!(r.get_hl(), 0x014d);
    assert_eq!(r.pc, 0x100);
    assert_eq!(r.sp, 0xfffe);
}

#[test]
fn set_flag_keeps_other_bits() {
    assert_eq!(set_flag(0x0f, Flag::Z, true), 0x8f);
    assert_eq!(set_flag(0xff, Flag::C, false), 0xef);
}

#[test]
fn swap_twice_is_identity() {
    for v in 0..=255u8 {
        let mut a = v;
        let f = a.swap();
        assert_eq!(f, if a == 0 { 0x80 } else { 0 });
        a.swap();
        assert_eq!(a, v);
    }
    let mut a: u8 = 0x12;
    a.swap();
    assert_eq!(a, 0x21);
}

#[test]
fn rrc_undoes_rlc() {
    for v in 0..=255u8 {
        let mut a = v;
        let f = a.rlc();
        assert_eq!(f & 0x10 != 0, v >= 128);
        a.rrc();
        assert_eq!(a, v);
    }
    let mut a: u8 = 0x81;
    assert_eq!(a.rlc(), 0x10);
    assert_eq!(a, 0x03);
}

#[test]
fn rr_undoes_rl_through_the_carry() {
    for v in 0..=255u8 {
        for c in [false, true] {
            let mut a = v;
            let mut f: u8 = if c { 0x10 } else { 0 };
            a.rl(&mut f);
            a.rr(&mut f);
            assert_eq!(a, v);
        }
    }
}

#[test]
fn shifts() {
    let mut a: u8 = 0x81;
    assert_eq!(a.sla(), 0x10);
    assert_eq!(a, 0x02);
    let mut a: u8 = 0x81;
    assert_eq!(a.sra(), 0x10);
    assert_eq!(a, 0xc0);
    let mut a: u8 = 0x01;
    assert_eq!(a.srl(), 0x80 | 0x10);
    assert_eq!(a, 0);
}

#[test]
fn adc_and_sbc_use_the_carry() {
    let mut a: u8 = 0x0e;
    assert_eq!(a.adc(0x01, true), 0x20);
    assert_eq!(a, 0x10);
    let mut a: u8 = 0x10;
    assert_eq!(a.sbc(0x0f, true), 0x80 | 0x40 | 0x20);
    assert_eq!(a, 0x00);
}

#[test]
fn inc_dec_keep_carry() {
    let mut a: u8 = 0xff;
    let mut f: u8 = 0x10;
    a.inc(&mut f);
    assert_eq!(a, 0);
    assert_eq!(f, 0x80 | 0x20 | 0x10);
    a.dec(&mut f);
    assert_eq!(a, 0xff);
    assert_eq!(f, 0x40 | 0x20 | 0x10);
}
