//! The keyboard keys that stand for the sixteen keys of the keypad.

use vstd::prelude::*;

verus! {

/// The key codes of the keyboard keys that stand for the keypad keys 0 to
/// 15, in that order: the rows `1 2 3 4`, `q w e r`, `a s d f`, `z x c v`.
/// A key code is the code point of the character on the key.
pub open spec fn layout() -> Seq<int> {
    seq![49int, 50, 51, 52, 113, 119, 101, 114, 97, 115, 100, 102, 122, 120, 99, 118]
}

/// The keypad key that the keyboard key `keycode` stands for, if any.
pub open spec fn keypad_key(keycode: int) -> Option<u8> {
    if exists|k: int| 0 <= k < 16 && layout()[k] == keycode {
        Some((choose|k: int| 0 <= k < 16 && layout()[k] == keycode) as u8)
    } else {
        None
    }
}

/// The keyboard bitmask of the keyboard key `keycode`: the bit of its keypad
/// key, or zero if it stands for none.
pub open spec fn key_mask(keycode: int) -> u16 {
    match keypad_key(keycode) {
        Some(k) => 1u16 << k,
        None => 0,
    }
}

/// The keypad key that the keyboard key `keycode` stands for, if any.
pub fn key_index(keycode: i32) -> (key: Option<u8>)
    ensures
        key == keypad_key(keycode as int),
        match key {
            Some(k) => k < 16 && layout()[k as int] == keycode,
            None => forall|k: int| 0 <= k < 16 ==> layout()[k] != keycode,
        },
{
    let key: Option<u8> = match keycode {
        49 => Some(0),
        50 => Some(1),
        51 => Some(2),
        52 => Some(3),
        113 => Some(4),
        119 => Some(5),
        101 => Some(6),
        114 => Some(7),
        97 => Some(8),
        115 => Some(9),
        100 => Some(10),
        102 => Some(11),
        122 => Some(12),
        120 => Some(13),
        99 => Some(14),
        118 => Some(15),
        _ => None,
    };
    proof {
        lemma_layout_distinct();
        if let Some(k) = key {
            assert(layout()[k as int] == keycode);
        }
    }
    key
}

/// The keyboard bitmask of the keyboard key `keycode`.
pub fn handle_key_event(keycode: i32) -> (mask: u16)
    ensures
        mask == key_mask(keycode as int),
{
    match key_index(keycode) {
        Some(k) => 1u16 << (k as u16),
        None => 0,
    }
}

/// No key code occurs twice in the layout.
pub proof fn lemma_layout_distinct()
    ensures
        layout().len() == 16,
        forall|i: int, j: int| 0 <= i < j < 16 ==> layout()[i] != layout()[j],
{
}

} // verus!
