//! A window that shows frames and reports the keyboard keys held down.
use vstd::prelude::*;

verus! {

/// A window that the host provides: it shows a frame and reports the keys held down.
pub trait DrawingWindow {
    fn refresh_buffer(&mut self, screen: &Vec<u32>);

    fn get_pressed_keys(&self) -> Vec<Key>;
}

/// The keyboard keys the emulator listens to.
#[derive(PartialEq, Eq, Structural, Clone, Copy, Debug)]
pub enum Key {
    X,
    Z,
    Down,
    Left,
    Right,
    Up,
    Enter,
    Backspace,
}

} // verus!
