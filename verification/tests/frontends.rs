use rs_boy::lib_rs_boy::io::game_engine::Key as KeyboardKey;
use rs_boy::lib_rs_boy::io::keys::Key;
use rs_boy::libretro_core::{
    channel_enabled_option, rumble_level_option, rumble_strength, JoypadButtons, RUMBLE_HIGH,
    RUMBLE_LOW, RUMBLE_MEDIUM, RUMBLE_OFF,
};
use rs_boy::minifb_binary::get_pressed_keys;

fn no_buttons() -> JoypadButtons {
    JoypadButtons {
        up: false,
        down: false,
        left: false,
        right: false,
        a: false,
        b: false,
        start: false,
        select: false,
    }
}

#[test]
fn pad_keys_come_in_fixed_order() {
    let pad = JoypadButtons { b: true, up: true, start: true, a: true, ..no_buttons() };
    assert_eq!(pad.pressed_keys(), vec![Key::Start, Key::Up, Key::A, Key::B]);
    assert!(!pad.wants_shutdown());
}

#[test]
fn no_buttons_press_no_keys() {
    assert_eq!(no_buttons().pressed_keys(), Vec::<Key>::new());
}

#[test]
fn all_buttons_press_all_keys() {
    let pad = JoypadButtons {
        up: true,
        down: true,
        left: true,
        right: true,
        a: true,
        b: true,
        start: true,
        select: true,
    };
    assert_eq!(
        pad.pressed_keys(),
        vec![Key::Start, Key::Select, Key::Up, Key::Down, Key::Left, Key::Right, Key::A, Key::B]
    );
}

#[test]
fn start_and_select_close_the_core() {
    let pad = JoypadButtons { start: true, select: true, ..no_buttons() };
    assert!(pad.wants_shutdown());
    assert!(!JoypadButtons { start: true, ..no_buttons() }.wants_shutdown());
    assert!(!JoypadButtons { select: true, ..no_buttons() }.wants_shutdown());
}

#[test]
fn rumble_levels() {
    assert_eq!(RUMBLE_OFF, 0);
    assert_eq!(RUMBLE_LOW, 65535 / 3);
    assert_eq!(RUMBLE_MEDIUM, RUMBLE_LOW * 2);
    assert_eq!(RUMBLE_HIGH, 65535);
    assert_eq!(rumble_level_option("OFF"), Some(RUMBLE_OFF));
    assert_eq!(rumble_level_option("LOW"), Some(RUMBLE_LOW));
    assert_eq!(rumble_level_option("MEDIUM"), Some(RUMBLE_MEDIUM));
    assert_eq!(rumble_level_option("HIGH"), Some(RUMBLE_HIGH));
    assert_eq!(rumble_level_option("high"), None);
    assert_eq!(rumble_level_option(""), None);
    assert_eq!(rumble_level_option("LOWER"), None);
}

#[test]
fn rumble_follows_the_motor() {
    assert_eq!(rumble_strength(true, RUMBLE_MEDIUM), 43690);
    assert_eq!(rumble_strength(false, RUMBLE_HIGH), 0);
    assert_eq!(rumble_strength(true, RUMBLE_OFF), 0);
}

#[test]
fn channel_options() {
    assert_eq!(channel_enabled_option("true"), Some(false));
    assert_eq!(channel_enabled_option("false"), Some(true));
    assert_eq!(channel_enabled_option("yes"), None);
    assert_eq!(channel_enabled_option("True"), None);
}

#[test]
fn keyboard_layout() {
    let keys = vec![
        Some(KeyboardKey::Enter),
        Some(KeyboardKey::Backspace),
        Some(KeyboardKey::Down),
        Some(KeyboardKey::Up),
        Some(KeyboardKey::Left),
        Some(KeyboardKey::Right),
        Some(KeyboardKey::X),
        Some(KeyboardKey::Z),
        None,
    ];
    assert_eq!(
        get_pressed_keys(&keys),
        vec![
            Key::Start,
            Key::Select,
            Key::Down,
            Key::Up,
            Key::Left,
            Key::Right,
            Key::A,
            Key::B,
            Key::Start
        ]
    );
    assert_eq!(get_pressed_keys(&Vec::new()), Vec::<Key>::new());
}
