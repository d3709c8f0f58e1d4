//! The joypad register (0xFF00): the game selects the buttons or the d-pad
//! and reads the selected ones in the low nibble, 0 meaning pressed.
use crate::lib_rs_boy::io::keys::{contains_key, Key};
use vstd::prelude::*;

verus! {

pub const REGISTER_LOCATION: usize = 0xff00;

pub struct Joypad {
    /// ff00
    ///
    /// 5 Select buttons
    ///
    /// 4 Select d-pad
    ///
    /// 3 Start / Down
    ///
    /// 2 Select / Up
    ///
    /// 1 B / Left
    ///
    /// 0 A / Right
    joypad: u8,
    keys: Vec<Key>,
}

/// `joypad` with low bits 3..0 cleared where `down3`..`down0` hold.
pub open spec fn with_pressed(joypad: u8, down3: bool, down2: bool, down1: bool, down0: bool) -> u8 {
    joypad & ((0xf0 + (if down3 { 0 } else { 8int }) + (if down2 { 0 } else { 4int }) + (if down1 {
        0
    } else {
        2int
    }) + (if down0 { 0 } else { 1int })) as u8)
}

/// Clearing the four key bits one by one.
proof fn lemma_key_mask(j: u8, d3: bool, d2: bool, d1: bool, d0: bool)
    ensures
        j & ((if d3 { 0xf7u8 } else { 0xffu8 }) & (if d2 { 0xfbu8 } else { 0xffu8 }) & (if d1 {
            0xfdu8
        } else {
            0xffu8
        }) & (if d0 { 0xfeu8 } else { 0xffu8 })) == with_pressed(j, d3, d2, d1, d0),
{
    let m = ((0xf0 + (if d3 { 0 } else { 8int }) + (if d2 { 0 } else { 4int }) + (if d1 {
        0
    } else {
        2int
    }) + (if d0 { 0 } else { 1int })) as u8);
    assert(m == (if d3 { 0xf7u8 } else { 0xffu8 }) & (if d2 { 0xfbu8 } else { 0xffu8 }) & (if d1 {
        0xfdu8
    } else {
        0xffu8
    }) & (if d0 { 0xfeu8 } else { 0xffu8 })) by (bit_vector)
        requires
            m == ((0xf0u8 as int + (if d3 { 0 } else { 8int }) + (if d2 { 0 } else { 4int }) + (
            if d1 {
                0
            } else {
                2int
            }) + (if d0 { 0 } else { 1int })) as u8),
    ;
}

impl Joypad {
    /// The register's value.
    pub closed spec fn register(&self) -> u8 {
        self.joypad
    }

    /// The buttons held down.
    pub closed spec fn keys(&self) -> Seq<Key> {
        self.keys@
    }

    /// The value a read of 0xFF00 gives: with neither group selected or no
    /// key down the low nibble reads 0xF; else each selected pressed key
    /// clears its bit.
    pub open spec fn read_value(&self) -> u8 {
        let j = self.register();
        let buttons = j & 0x20 == 0;
        let dpad = j & 0x10 == 0;
        let down = |k: Key| self.keys().contains(k);
        if j & 0x30 == 0x30 || self.keys().len() == 0 {
            j | 0xf
        } else {
            with_pressed(
                j,
                (buttons && down(Key::Start)) || (dpad && down(Key::Down)),
                (buttons && down(Key::Select)) || (dpad && down(Key::Up)),
                (buttons && down(Key::B)) || (dpad && down(Key::Left)),
                (buttons && down(Key::A)) || (dpad && down(Key::Right)),
            )
        }
    }

    pub fn get(&self, location: usize) -> (r: u8)
        requires
            location == REGISTER_LOCATION,
        ensures
            r == self.read_value(),
    {
        // If neither buttons nor d-pad is selected ($30 was written), then the low nibble
        // reads $F (all buttons released).
        if self.joypad & 0x30 == 0x30 || self.keys.len() == 0 {
            return self.joypad | 0xf;
        }
        let buttons = self.buttons_selected();
        let dpad = self.dpad_selected();
        let d3 = (buttons && contains_key(&self.keys, Key::Start)) || (dpad && contains_key(
            &self.keys,
            Key::Down,
        ));
        let d2 = (buttons && contains_key(&self.keys, Key::Select)) || (dpad && contains_key(
            &self.keys,
            Key::Up,
        ));
        let d1 = (buttons && contains_key(&self.keys, Key::B)) || (dpad && contains_key(
            &self.keys,
            Key::Left,
        ));
        let d0 = (buttons && contains_key(&self.keys, Key::A)) || (dpad && contains_key(
            &self.keys,
            Key::Right,
        ));
        // each pressed key clears its bit: Start/Down 0xf7, Select/Up 0xfb, B/Left 0xfd, A/Right 0xfe
        let keys: u8 = (if d3 {
            0xf7u8
        } else {
            0xffu8
        }) & (if d2 {
            0xfbu8
        } else {
            0xffu8
        }) & (if d1 {
            0xfdu8
        } else {
            0xffu8
        }) & (if d0 {
            0xfeu8
        } else {
            0xffu8
        });
        proof {
            lemma_key_mask(self.joypad, d3, d2, d1, d0);
        }
        self.joypad & keys
    }

    /// Selects buttons and/or d-pad (bits 5 and 4 of `value`); the key bits are kept.
    pub fn write(&mut self, location: usize, value: u8)
        requires
            location == REGISTER_LOCATION,
        ensures
            final(self).register() == (value & 0x30) | (old(self).register() & 0x0f),
            final(self).keys() == old(self).keys(),
    {
        let value = (value & 0x30) | (self.joypad & 0x0f);
        self.joypad = value;
    }

    fn buttons_selected(&self) -> (r: bool)
        ensures
            r == (self.joypad & 0x20 == 0),
    {
        // flipped semantics
        (self.joypad & 0x20) == 0
    }

    fn dpad_selected(&self) -> (r: bool)
        ensures
            r == (self.joypad & 0x10 == 0),
    {
        // flipped semantics
        self.joypad & 0x10 == 0
    }

    /// Records the buttons held down.
    pub fn key_pressed(&mut self, keys: Vec<Key>)
        ensures
            final(self).keys() == keys@,
            final(self).register() == old(self).register(),
    {
        self.keys = keys
    }

    /// No group selected, no key down.
    pub fn new() -> (r: Self)
        ensures
            r.register() == 0xcf,
            r.keys() == Seq::<Key>::empty(),
    {
        Joypad { joypad: 0xcf, keys: Vec::new() }
    }
}

/// A held key reads as a cleared bit when its group is selected: here A (bit 0)
/// with the buttons selected; with no key held every key bit reads 1.
pub proof fn held_keys_read_low(j: Joypad)
    ensures
        (j.register() & 0x30 == 0x10 && j.keys().contains(Key::A)) ==> j.read_value() & 1 == 0,
        j.keys().len() == 0 ==> j.read_value() & 0x0f == 0x0f,
{
    let r = j.register();
    assert(r | 0xf == r | 0xfu8);
    assert((r | 0xfu8) & 0x0f == 0x0f) by (bit_vector);
    if r & 0x30 == 0x10 && j.keys().contains(Key::A) {
        assert(r & 0x20 == 0 && r & 0x10 != 0 && r & 0x30 != 0x30) by (bit_vector)
            requires
                r & 0x30 == 0x10,
        ;
        assert(j.keys().len() != 0);
        let d3 = j.keys().contains(Key::Start);
        let d2 = j.keys().contains(Key::Select);
        let d1 = j.keys().contains(Key::B);
        assert(j.read_value() == with_pressed(r, d3, d2, d1, true));
        assert(with_pressed(r, d3, d2, d1, true) & 1 == 0) by (bit_vector);
    }
}

} // verus!
