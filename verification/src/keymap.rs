//! The host-facing keyboard vocabulary: the per-cycle input event, and the
//! mapping from the conventional host key characters to the 16-key CHIP-8
//! keypad.

use vstd::prelude::*;

verus! {

/// What the host's input collaborator reports once per cycle: either a quit
/// request, or the full 16-key snapshot for this cycle.
pub enum KeyboardInput {
    /// The user asked to stop the session.
    Quit,
    /// The held/released state of each CHIP-8 key 0x0-0xF this cycle.
    Input([bool; 16]),
}

/// The CHIP-8 keypad index for an ASCII host key, under the conventional
/// 1234/qwer/asdf/zxcv layout, or None for a key outside the pad.
pub open spec fn spec_key_index(key: u8) -> Option<u8> {
    if key == 0x31 {  // '1'
        Some(0x1u8)
    } else if key == 0x32 {  // '2'
        Some(0x2u8)
    } else if key == 0x33 {  // '3'
        Some(0x3u8)
    } else if key == 0x34 {  // '4'
        Some(0xCu8)
    } else if key == 0x71 {  // 'q'
        Some(0x4u8)
    } else if key == 0x77 {  // 'w'
        Some(0x5u8)
    } else if key == 0x65 {  // 'e'
        Some(0x6u8)
    } else if key == 0x72 {  // 'r'
        Some(0xDu8)
    } else if key == 0x61 {  // 'a'
        Some(0x7u8)
    } else if key == 0x73 {  // 's'
        Some(0x8u8)
    } else if key == 0x64 {  // 'd'
        Some(0x9u8)
    } else if key == 0x66 {  // 'f'
        Some(0xEu8)
    } else if key == 0x7A {  // 'z'
        Some(0xAu8)
    } else if key == 0x78 {  // 'x'
        Some(0x0u8)
    } else if key == 0x63 {  // 'c'
        Some(0xBu8)
    } else if key == 0x76 {  // 'v'
        Some(0xFu8)
    } else {
        None
    }
}

/// Map an ASCII host key to its CHIP-8 keypad index; the result is always a
/// valid keypad index.
pub fn key_index(key: u8) -> (r: Option<u8>)
    ensures
        r == spec_key_index(key),
        r matches Some(k) ==> k < 16,
{
    match key {
        0x31 => Some(0x1),
        0x32 => Some(0x2),
        0x33 => Some(0x3),
        0x34 => Some(0xC),
        0x71 => Some(0x4),
        0x77 => Some(0x5),
        0x65 => Some(0x6),
        0x72 => Some(0xD),
        0x61 => Some(0x7),
        0x73 => Some(0x8),
        0x64 => Some(0x9),
        0x66 => Some(0xE),
        0x7A => Some(0xA),
        0x78 => Some(0x0),
        0x63 => Some(0xB),
        0x76 => Some(0xF),
        _ => None,
    }
}

} // verus!
