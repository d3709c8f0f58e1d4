//! The decisions of the libretro front end, apart from the frontend's own
//! calls: which buttons a frame presses, when the player asks to quit, how
//! strongly the pad rumbles, and what the core options' values select.
use crate::lib_rs_boy::io::keys::Key;
use vstd::string::StringSliceAdditionalSpecFns;
use vstd::prelude::*;

verus! {

/// Rumble strengths selectable by the "rumble_intensity" option.
pub const RUMBLE_OFF: u16 = 0;

pub const RUMBLE_LOW: u16 = 21845;

pub const RUMBLE_MEDIUM: u16 = 43690;

pub const RUMBLE_HIGH: u16 = 65535;

/// The state of the first joypad in one frame, a flag per button.
#[derive(Clone, Copy, Debug, PartialEq, Eq, Structural)]
pub struct JoypadButtons {
    pub up: bool,
    pub down: bool,
    pub left: bool,
    pub right: bool,
    pub a: bool,
    pub b: bool,
    pub start: bool,
    pub select: bool,
}

/// `key` as a one-element sequence when `held`, else nothing.
pub open spec fn key_if(held: bool, key: Key) -> Seq<Key> {
    if held {
        seq![key]
    } else {
        Seq::empty()
    }
}

/// Appends `key` when `held`.
fn push_if(keys: &mut Vec<Key>, held: bool, key: Key)
    ensures
        final(keys)@ == old(keys)@ + key_if(held, key),
{
    if held {
        keys.push(key);
    }
    assert(keys@ =~= old(keys)@ + key_if(held, key));
}

impl JoypadButtons {
    /// The keys handed to the Game Boy, in the order Start, Select, Up, Down,
    /// Left, Right, A, B, each once if its button is held.
    pub open spec fn spec_pressed_keys(self) -> Seq<Key> {
        key_if(self.start, Key::Start) + key_if(self.select, Key::Select) + key_if(self.up, Key::Up)
            + key_if(self.down, Key::Down) + key_if(self.left, Key::Left) + key_if(
            self.right,
            Key::Right,
        ) + key_if(self.a, Key::A) + key_if(self.b, Key::B)
    }

    /// Start and Select held together close the core.
    pub fn wants_shutdown(&self) -> (r: bool)
        ensures
            r == (self.start && self.select),
    {
        self.start && self.select
    }

    /// The held buttons as the Game Boy's keys.
    pub fn pressed_keys(&self) -> (keys: Vec<Key>)
        ensures
            keys@ == self.spec_pressed_keys(),
    {
        let mut keys: Vec<Key> = Vec::new();
        push_if(&mut keys, self.start, Key::Start);
        push_if(&mut keys, self.select, Key::Select);
        push_if(&mut keys, self.up, Key::Up);
        push_if(&mut keys, self.down, Key::Down);
        push_if(&mut keys, self.left, Key::Left);
        push_if(&mut keys, self.right, Key::Right);
        push_if(&mut keys, self.a, Key::A);
        push_if(&mut keys, self.b, Key::B);
        assert(keys@ =~= self.spec_pressed_keys());
        keys
    }
}

/// The pad's rumble strength: the chosen level while the cartridge's motor
/// runs, else nothing.
pub fn rumble_strength(rumbling: bool, level: u16) -> (r: u16)
    ensures
        r == (if rumbling {
            level
        } else {
            0
        }),
{
    if rumbling {
        level
    } else {
        0
    }
}

/// Does `value` hold exactly the bytes `word`?
fn bytes_are(value: &[u8], word: &[u8]) -> (r: bool)
    ensures
        r == (value@ == word@),
{
    if value.len() != word.len() {
        return false;
    }
    let mut i: usize = 0;
    while i < value.len()
        invariant
            value@.len() == word@.len(),
            i <= value@.len(),
            forall|j: int| 0 <= j < i ==> value@[j] == word@[j],
        decreases value.len() - i,
    {
        if value[i] != word[i] {
            return false;
        }
        i = i + 1;
    }
    assert(value@ =~= word@);
    true
}

/// The rumble level that a "rumble_intensity" value selects: "OFF", "LOW",
/// "MEDIUM" or "HIGH"; `None` for any other value, which leaves the level as
/// it was.
pub fn rumble_level_option(value: &str) -> (r: Option<u16>)
    ensures
        value.spec_bytes() == seq![79u8, 70u8, 70u8] ==> r == Some(RUMBLE_OFF),
        value.spec_bytes() == seq![76u8, 79u8, 87u8] ==> r == Some(RUMBLE_LOW),
        value.spec_bytes() == seq![77u8, 69u8, 68u8, 73u8, 85u8, 77u8] ==> r == Some(RUMBLE_MEDIUM),
        value.spec_bytes() == seq![72u8, 73u8, 71u8, 72u8] ==> r == Some(RUMBLE_HIGH),
        r is None <==> !(value.spec_bytes() == seq![79u8, 70u8, 70u8] || value.spec_bytes() == seq![
            76u8,
            79u8,
            87u8,
        ] || value.spec_bytes() == seq![77u8, 69u8, 68u8, 73u8, 85u8, 77u8] || value.spec_bytes()
            == seq![72u8, 73u8, 71u8, 72u8]),
{
    let bytes = value.as_bytes();
    let off: [u8; 3] = [79, 70, 70];
    let low: [u8; 3] = [76, 79, 87];
    let medium: [u8; 6] = [77, 69, 68, 73, 85, 77];
    let high: [u8; 4] = [72, 73, 71, 72];
    assert(off@ == seq![79u8, 70u8, 70u8]);
    assert(low@ == seq![76u8, 79u8, 87u8]);
    assert(medium@ == seq![77u8, 69u8, 68u8, 73u8, 85u8, 77u8]);
    assert(high@ == seq![72u8, 73u8, 71u8, 72u8]);
    if bytes_are(bytes, off.as_slice()) {
        Some(RUMBLE_OFF)
    } else if bytes_are(bytes, low.as_slice()) {
        Some(RUMBLE_LOW)
    } else if bytes_are(bytes, medium.as_slice()) {
        Some(RUMBLE_MEDIUM)
    } else if bytes_are(bytes, high.as_slice()) {
        Some(RUMBLE_HIGH)
    } else {
        None
    }
}

/// Whether a "disable_channel_N" value turns the channel on: "false" keeps
/// it playing (`Some(true)`), "true" silences it (`Some(false)`); `None` for
/// any other value, which leaves the channel as it was.
pub fn channel_enabled_option(value: &str) -> (r: Option<bool>)
    ensures
        value.spec_bytes() == seq![116u8, 114u8, 117u8, 101u8] ==> r == Some(false),
        value.spec_bytes() == seq![102u8, 97u8, 108u8, 115u8, 101u8] ==> r == Some(true),
        r is None <==> !(value.spec_bytes() == seq![116u8, 114u8, 117u8, 101u8]
            || value.spec_bytes() == seq![102u8, 97u8, 108u8, 115u8, 101u8]),
{
    let bytes = value.as_bytes();
    let yes: [u8; 4] = [116, 114, 117, 101];
    let no: [u8; 5] = [102, 97, 108, 115, 101];
    assert(yes@ == seq![116u8, 114u8, 117u8, 101u8]);
    assert(no@ == seq![102u8, 97u8, 108u8, 115u8, 101u8]);
    if bytes_are(bytes, yes.as_slice()) {
        Some(false)
    } else if bytes_are(bytes, no.as_slice()) {
        Some(true)
    } else {
        None
    }
}

} // verus!
