use rs_boy::controls::Joypad as OldJoypad;
use rs_boy::lib_rs_boy::gameboy::controls::Joypad;
use rs_boy::lib_rs_boy::io::game_engine::Key as EngineKey;
use rs_boy::lib_rs_boy::io::keys::{contains_key, Key};

#[test]
fn no_key_reads_high() {
    let j = Joypad::new();
    assert_eq!(j.get(0xff00), 0xcf);
}

#[test]
fn held_buttons_read_low_when_selected() {
    let mut j = Joypad::new();
    j.key_pressed(vec![Key::A, Key::Start, Key::Up]);
    // select the buttons (bit 5 low)
    j.write(0xff00, 0x10);
    assert_eq!(j.get(0xff00) & 0x0f, 0b0110);
    // select the d-pad (bit 4 low)
    j.write(0xff00, 0x20);
    assert_eq!(j.get(0xff00) & 0x0f, 0b1011);
    // neither group
    j.write(0xff00, 0x30);
    assert_eq!(j.get(0xff00) & 0x0f, 0x0f);
}

#[test]
fn key_lookup() {
    assert!(contains_key(&vec![Key::B, Key::Left], Key::Left));
    assert!(!contains_key(&vec![Key::B, Key::Left], Key::Right));
}

#[test]
fn old_joypad_selects_groups() {
    let mut j = OldJoypad::default();
    assert_eq!(j.get(0xff00), 0x3f);
    j.key_pressed(vec![EngineKey::X]);
    j.write(0xff00, 0x10);
    assert_eq!(j.get(0xff00) & 0x30, 0x10);
}
