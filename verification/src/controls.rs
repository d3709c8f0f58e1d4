//! The joypad register (0xFF00) of the windowed emulator: the game selects
//! the buttons or the d-pad; the low nibble reads 0xF when neither is selected.
use crate::lib_rs_boy::io::game_engine::Key;
use vstd::prelude::*;

verus! {

pub const REGISTER_LOCATION: usize = 0xff00;

pub struct Joypad {
    /// ff00
    ///
    /// 5 Select buttons
    ///
    /// 4 Select d-pad
    ///
    /// 3 Start / Down
    ///
    /// 2 Select / Up
    ///
    /// 1 B / Left
    ///
    /// 0 A / Right
    joypad: u8,
    keys: Vec<Key>,
}

impl Joypad {
    /// The register's value.
    pub closed spec fn register(&self) -> u8 {
        self.joypad
    }

    /// The keys held down.
    pub closed spec fn keys(&self) -> Seq<Key> {
        self.keys@
    }

    /// Reads the register: with neither group selected the low nibble reads 0xF.
    pub fn get(&self, location: usize) -> (r: u8)
        requires
            location == REGISTER_LOCATION,
        ensures
            r == (if self.register() & 0x30 == 0x30 {
                self.register() | 0xf
            } else {
                self.register()
            }),
    {
        if self.joypad & 0x30 == 0x30 {
            self.joypad | 0xf
        } else {
            self.joypad
        }
    }

    /// Selects buttons and/or d-pad (bits 5 and 4 of `value`); the key bits are kept.
    pub fn write(&mut self, location: usize, value: u8)
        requires
            location == REGISTER_LOCATION,
        ensures
            final(self).register() == (value & 0x30) | (old(self).register() & 0x0f),
            final(self).keys() == old(self).keys(),
    {
        let value = (value & 0x30) | (self.joypad & 0x0f);
        self.joypad = value;
    }

    /// Are the buttons selected (bit 5 clear)?
    fn buttons_selected(&self) -> (r: bool)
        ensures
            r == (self.joypad & 0x20 == 0),
    {
        (self.joypad & 0x20) == 0  // flipped semantics
    }

    /// Is the d-pad selected (bit 4 clear)?
    fn dpad_selected(&self) -> (r: bool)
        ensures
            r == (self.joypad & 0x10 == 0),
    {
        (self.joypad & 0x10) == 0  // flipped semantics
    }

    /// Records the keys held down.
    pub fn key_pressed(&mut self, pressed_keys: Vec<Key>)
        ensures
            final(self).keys() == pressed_keys@,
            final(self).register() == old(self).register(),
    {
        self.keys = pressed_keys;
    }

    /// No group selected, no key down.
    pub fn default() -> (r: Joypad)
        ensures
            r.register() == 0x3f,
            r.keys() == Seq::<Key>::empty(),
    {
        Joypad { joypad: 0x3f, keys: Vec::new() }
    }
}

} // verus!
