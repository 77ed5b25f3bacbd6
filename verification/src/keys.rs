//! Key identifiers of the native backend and the states a key can be in.

use vstd::prelude::*;

verus! {

/// What the native backend reports of a key.
#[derive(Clone, Copy, Debug, PartialEq, Eq, Structural)]
pub enum KeyAction {
    /// The key is up.
    Release,
    /// The key went down.
    Press,
    /// The key is held down and repeats.
    Repeat,
}

impl KeyAction {
    /// Whether the key counts as held down: pressed or repeating.
    pub open spec fn is_down(self) -> bool {
        self == KeyAction::Press || self == KeyAction::Repeat
    }

    /// Computes [`KeyAction::is_down`].
    pub fn held(self) -> (down: bool)
        ensures
            down == self.is_down(),
    {
        match self {
            KeyAction::Release => false,
            KeyAction::Press => true,
            KeyAction::Repeat => true,
        }
    }
}

/// Whether `code` names a key of the native backend whose state can be
/// queried: the printable keys (space, apostrophe, comma to slash, digits,
/// semicolon, equal, letters, brackets and backslash, grave accent, the two
/// world keys), the function keys (escape to end, the lock keys to pause,
/// F1 to F25, the keypad, the modifiers and menu). The backend's "unknown
/// key" identifier, -1, names no key and is not among them.
pub open spec fn is_key_code(code: int) -> bool {
    ||| code == 32
    ||| code == 39
    ||| 44 <= code <= 57
    ||| code == 59
    ||| code == 61
    ||| 65 <= code <= 93
    ||| code == 96
    ||| code == 161
    ||| code == 162
    ||| 256 <= code <= 269
    ||| 280 <= code <= 284
    ||| 290 <= code <= 314
    ||| 320 <= code <= 336
    ||| 340 <= code <= 348
}

/// Checks a host integer against the backend's key identifiers. A legal
/// code comes back in the width in which the backend takes it.
pub fn key_from_code(code: i64) -> (key: Option<i32>)
    ensures
        is_key_code(code as int) ==> key == Some(code as i32) && key->Some_0 == code,
        !is_key_code(code as int) ==> key is None,
{
    let legal = code == 32 || code == 39 || (44 <= code && code <= 57) || code == 59 || code == 61
        || (65 <= code && code <= 93) || code == 96 || code == 161 || code == 162
        || (256 <= code && code <= 269) || (280 <= code && code <= 284)
        || (290 <= code && code <= 314) || (320 <= code && code <= 336)
        || (340 <= code && code <= 348);
    if legal {
        Some(code as i32)
    } else {
        None
    }
}

} // verus!
