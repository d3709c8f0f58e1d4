//! A screen that shows nothing and reports no key, for running the core headless.
use crate::lib_rs_boy::io::game_engine::{DrawingWindow, Key};
use vstd::prelude::*;

verus! {

pub const WIDTH: usize = 160;

pub const HEIGHT: usize = 144;

pub struct FakeScreen {}

impl DrawingWindow for FakeScreen {
    fn refresh_buffer(&mut self, _screen: &Vec<u32>) {
    }

    fn get_pressed_keys(&self) -> (r: Vec<Key>)
        ensures
            r@ == Seq::<Key>::empty(),
    {
        return vec![];
    }
}

} // verus!
