use rs_boy::gameboy::audio::Speaker;
use rs_boy::gameboy::memory_bus::MemoryAccessor;
use rs_boy::lib_rs_boy::gameboy::audio::channel2::Channel2;
use rs_boy::lib_rs_boy::gameboy::audio::channel3::Channel3;
use rs_boy::lib_rs_boy::gameboy::audio::channel4::Channel4;
use rs_boy::lib_rs_boy::gameboy::audio::pulse_wave::Pulse;

#[test]
fn pulse_boot_registers() {
    let p = Pulse::default();
    assert_eq!(p.get(0), 0x80);
    assert_eq!(p.get(1), 0xbf);
    assert_eq!(p.get(2), 0xf3);
    assert_eq!(p.get(3), 0xff);
    assert_eq!(p.get(4), 0xbf);
    assert!(!p.is_enabled());
    assert_eq!(p.digital_sample(), None);
}

#[test]
fn pulse_trigger_and_dac() {
    let mut p = Pulse::default();
    p.write(2, 0xf0);
    p.write(4, 0x80);
    assert!(p.is_enabled());
    // duty 2 (10000111): step 0 is high, at volume 15
    assert_eq!(p.digital_sample(), Some((1, 15)));
    // DAC off: bits 3-7 of NR12 clear
    p.write(2, 0x07);
    assert!(!p.is_enabled());
    // a trigger with the DAC off leaves the channel off
    p.write(4, 0x80);
    assert!(!p.is_enabled());
}

#[test]
fn pulse_length_expires() {
    let mut p = Pulse::default();
    p.write(2, 0xf0);
    // length 64 - 63 = 1
    p.write(1, 0x3f);
    p.write(4, 0xc0);
    assert!(p.is_enabled());
    p.step(8191);
    assert!(p.is_enabled());
    p.step(1);
    assert!(!p.is_enabled());
}

#[test]
fn pulse_reset_clears() {
    let mut p = Pulse::default();
    p.write(2, 0xf0);
    p.write(4, 0x80);
    p.reset();
    assert!(!p.is_enabled());
    assert_eq!(p.get(2), 0x00);
    assert_eq!(p.get(0), 0x80);
}

#[test]
fn channel2_has_no_sweep_register() {
    let mut c = Channel2::default();
    assert_eq!(c.get(0xff15), 0xff);
    c.write(0xff15, 0x12);
    assert_eq!(c.get(0xff15), 0xff);
    c.write(0xff17, 0xf0);
    assert_eq!(c.get(0xff17), 0xf0);
    c.write(0xff19, 0x80);
    assert!(c.is_enabled());
}

#[test]
fn wave_channel_plays_wave_ram() {
    let mut c = Channel3::default();
    c.write(0xff30, 0xab);
    assert_eq!(c.get(0xff30), 0xab);
    c.write(0xff1a, 0x80);
    c.write(0xff1c, 0x20);
    assert_eq!(c.get(0xff1c), 0xbf);
    c.write(0xff1d, 0xff);
    c.write(0xff1e, 0x87);
    assert!(c.is_enabled());
    c.step(2);
    // sample 1 is the low nibble of byte 0, at full volume
    assert_eq!(c.digital_sample(), Some(0x0b));
    c.write(0xff1a, 0x00);
    assert!(!c.is_enabled());
}

#[test]
fn noise_channel_lfsr() {
    let mut c = Channel4::default();
    c.write(0xff21, 0xf0);
    assert_eq!(c.get(0xff21), 0xf0);
    c.write(0xff22, 0x00);
    c.write(0xff23, 0x80);
    assert!(c.is_enabled());
    // bit 0 of the LFSR (0xFF) is 1: the output, inverted, is 0
    assert_eq!(c.digital_sample(), Some((0, 15)));
    // 8 dots clock the LFSR once at divider 0, shift 0: 0xFF becomes 0x7F
    c.step(8);
    assert_eq!(c.digital_sample(), Some((0, 15)));
    c.write(0xff21, 0x00);
    assert!(!c.is_enabled());
}

#[test]
fn speaker_registers_and_sampling_clock() {
    let mut s = Speaker::new();
    assert_eq!(s.get(0xff24), 0x77);
    assert_eq!(s.get(0xff25), 0xf3);
    assert_eq!(s.get(0xff26), 0xf1 | 0);
    assert_eq!(s.get_volume(), (8, 8));
    assert_eq!(s.get_panning(1), (1, 1));
    assert_eq!(s.get_panning(3), (1, 0));
    assert!(!s.step(94));
    assert!(s.step(1));
    s.write(0xff12, 0xf0);
    s.write(0xff14, 0x80);
    assert_eq!(s.get(0xff26) & 0x01, 0x01);
    // 23 clocks of the period timer left the duty step at 7 (pattern 00001111)
    assert_eq!(s.samples().0, Some((1, 15)));
}

#[test]
fn speaker_step_bounds() {
    let mut s = Speaker::new();
    assert!(s.is_audio_enabled());
    assert!(s.can_step(1000));
    assert!(!s.step(50));
    // the sample clock now holds 50 dots: more than u32::MAX - 50 would overflow it
    assert!(!s.can_step(u32::MAX - 49));
    assert!(!s.can_step(u32::MAX));
}
