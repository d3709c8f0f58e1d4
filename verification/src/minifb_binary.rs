//! The keyboard layout of the desktop front end: which Game Boy button each
//! keyboard key held down presses.
use crate::lib_rs_boy::io::game_engine::Key as KeyboardKey;
use crate::lib_rs_boy::io::keys::Key;
use vstd::prelude::*;

verus! {

/// The button that a keyboard key presses: Enter is Start, Backspace is
/// Select, the arrows are the d-pad, X is A and Z is B. Any other key
/// (`None`) presses Start.
pub open spec fn button_for(key: Option<KeyboardKey>) -> Key {
    match key {
        Some(KeyboardKey::Enter) => Key::Start,
        Some(KeyboardKey::Backspace) => Key::Select,
        Some(KeyboardKey::Down) => Key::Down,
        Some(KeyboardKey::Up) => Key::Up,
        Some(KeyboardKey::Left) => Key::Left,
        Some(KeyboardKey::Right) => Key::Right,
        Some(KeyboardKey::X) => Key::A,
        Some(KeyboardKey::Z) => Key::B,
        None => Key::Start,
    }
}

fn key_to_button(key: Option<KeyboardKey>) -> (r: Key)
    ensures
        r == button_for(key),
{
    match key {
        Some(KeyboardKey::Enter) => Key::Start,
        Some(KeyboardKey::Backspace) => Key::Select,
        Some(KeyboardKey::Down) => Key::Down,
        Some(KeyboardKey::Up) => Key::Up,
        Some(KeyboardKey::Left) => Key::Left,
        Some(KeyboardKey::Right) => Key::Right,
        Some(KeyboardKey::X) => Key::A,
        Some(KeyboardKey::Z) => Key::B,
        None => Key::Start,
    }
}

/// The buttons that the keyboard keys held down press, one per key and in
/// the keys' order.
pub fn get_pressed_keys(keys: &Vec<Option<KeyboardKey>>) -> (output: Vec<Key>)
    ensures
        output@ == keys@.map_values(|k: Option<KeyboardKey>| button_for(k)),
{
    let mut output: Vec<Key> = Vec::new();
    let mut i: usize = 0;
    while i < keys.len()
        invariant
            i <= keys@.len(),
            output@ == keys@.subrange(0, i as int).map_values(|k: Option<KeyboardKey>| button_for(k)),
        decreases keys.len() - i,
    {
        output.push(key_to_button(keys[i]));
        assert(keys@.subrange(0, i + 1) == keys@.subrange(0, i as int).push(keys@[i as int]));
        i = i + 1;
    }
    assert(keys@.subrange(0, keys@.len() as int) == keys@);
    output
}

} // verus!
