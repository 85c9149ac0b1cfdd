use vstd::prelude::*;

verus! {

/// A key code of the host's input subsystem (Linux `input-event-codes`).
pub type KeyCode = u16;

pub const KEY_Q: KeyCode = 16;
pub const KEY_W: KeyCode = 17;
pub const KEY_E: KeyCode = 18;
pub const KEY_R: KeyCode = 19;
pub const KEY_T: KeyCode = 20;
pub const KEY_Y: KeyCode = 21;
pub const KEY_U: KeyCode = 22;
pub const KEY_I: KeyCode = 23;
pub const KEY_O: KeyCode = 24;
pub const KEY_P: KeyCode = 25;
pub const KEY_A: KeyCode = 30;
pub const KEY_S: KeyCode = 31;
pub const KEY_D: KeyCode = 32;
pub const KEY_F: KeyCode = 33;
pub const KEY_G: KeyCode = 34;
pub const KEY_H: KeyCode = 35;
pub const KEY_J: KeyCode = 36;
pub const KEY_K: KeyCode = 37;
pub const KEY_L: KeyCode = 38;
pub const KEY_Z: KeyCode = 44;
pub const KEY_X: KeyCode = 45;
pub const KEY_C: KeyCode = 46;
pub const KEY_V: KeyCode = 47;
pub const KEY_B: KeyCode = 48;
pub const KEY_N: KeyCode = 49;
pub const KEY_M: KeyCode = 50;

} // verus!
