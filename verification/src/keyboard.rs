//! Keyboard input queries over a plain snapshot of key state.
//!
//! The UI toolkit's input state is reduced to the two facts the engine
//! reads: which key codes were pressed this frame and which are currently
//! down. The layer that owns the real input converts into this snapshot.

use vstd::prelude::*;

verus! {

/// A plain snapshot of keyboard state: the key codes pressed this frame
/// and the key codes currently held down.
pub struct InputSnapshot {
    pub keys_pressed: Vec<u32>,
    pub keys_down: Vec<u32>,
}

/// Whether `key` was pressed in the snapshot `i`.
pub fn is_key_pressed_for_code(i: &InputSnapshot, key: u32) -> (r: bool)
    ensures
        r == i.keys_pressed@.contains(key),
{
    contains_code(&i.keys_pressed, key)
}

/// Whether `key` is held down in the snapshot `i`.
pub fn is_key_down_for_code(i: &InputSnapshot, key: u32) -> (r: bool)
    ensures
        r == i.keys_down@.contains(key),
{
    contains_code(&i.keys_down, key)
}

/// Whether `codes` lists the key code `key`.
fn contains_code(codes: &Vec<u32>, key: u32) -> (r: bool)
    ensures
        r == codes@.contains(key),
{
    let mut i: usize = 0;
    let len = codes.len();
    while i < len
        invariant
            i <= len,
            len == codes@.len(),
            forall|j: int| 0 <= j < i ==> codes@[j] != key,
        decreases len - i,
    {
        if codes[i] == key {
            return true;
        }
        i = i + 1;
    }
    false
}

} // verus!
