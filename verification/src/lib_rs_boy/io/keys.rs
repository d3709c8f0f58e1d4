//! The Game Boy's buttons.
use vstd::prelude::*;

verus! {

/// A button of the Game Boy.
#[derive(PartialEq, Eq, Structural, Clone, Copy, Debug)]
pub enum Key {
    A,
    B,
    Start,
    Select,
    Up,
    Down,
    Left,
    Right,
}

/// Is `key` among `keys`?
pub fn contains_key(keys: &Vec<Key>, key: Key) -> (r: bool)
    ensures
        r == keys@.contains(key),
{
    let mut i: usize = 0;
    while i < keys.len()
        invariant
            i <= keys@.len(),
            forall|j: int| 0 <= j < i ==> keys@[j] != key,
        decreases keys.len() - i,
    {
        if keys[i] == key {
            assert(keys@[i as int] == key);
            return true;
        }
        i = i + 1;
    }
    false
}

} // verus!
