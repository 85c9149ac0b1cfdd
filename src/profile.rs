use vstd::prelude::*;
use crate::keys::{
    KeyCode, KEY_A, KEY_B, KEY_C, KEY_D, KEY_E, KEY_F, KEY_G, KEY_H, KEY_I, KEY_J, KEY_K, KEY_L, KEY_M,
    KEY_N, KEY_O, KEY_P, KEY_Q, KEY_R, KEY_S, KEY_T, KEY_U, KEY_V, KEY_W, KEY_X, KEY_Y, KEY_Z,
};

verus! {

/// Number of distinct chord codes the device can report.
pub const CHORD_COUNT: usize = 32;

/// The action bound to one chord code.
#[derive(Clone, Debug)]
pub enum Binding {
    /// A single key-down/key-up pulse.
    PressKey(KeyCode),
    /// Flips a held state for the key: down on the way on, up on the way off.
    ToggleKey(KeyCode),
    /// Makes the profile registered under this name the active one.
    SwitchProfile(String),
    /// Reserved; performs nothing.
    Macro,
    /// No action.
    Empty,
}

/// Why a notification produced no keyboard output.
#[derive(Clone, Copy, Debug, PartialEq, Eq, Structural)]
pub enum DispatchError {
    /// The notification carried no bytes.
    EmptyPayload,
    /// The first byte is not a chord code.
    CodeOutOfRange(u8),
    /// A profile switch named a profile that is not registered.
    UnknownProfile,
}

/// What the first byte of a notification payload decodes to.
pub open spec fn decode_spec(payload: Seq<u8>) -> Result<u8, DispatchError> {
    if payload.len() == 0 {
        Err(DispatchError::EmptyPayload)
    } else if payload[0] >= CHORD_COUNT as u8 {
        Err(DispatchError::CodeOutOfRange(payload[0]))
    } else {
        Ok(payload[0])
    }
}

/// Reads the chord code from a notification payload; the bytes after the
/// first are reserved and ignored.
pub fn decode(payload: &[u8]) -> (r: Result<u8, DispatchError>)
    ensures
        r == decode_spec(payload@),
{
    if payload.len() == 0 {
        Err(DispatchError::EmptyPayload)
    } else if payload[0] >= CHORD_COUNT as u8 {
        Err(DispatchError::CodeOutOfRange(payload[0]))
    } else {
        Ok(payload[0])
    }
}

/// A named table with exactly one binding per chord code.
pub struct Profile {
    name: String,
    bindings: Vec<Binding>,
}

impl Profile {
    #[verifier::type_invariant]
    spec fn inv(&self) -> bool {
        self.bindings@.len() == CHORD_COUNT
    }

    pub closed spec fn spec_name(&self) -> Seq<char> {
        self.name@
    }

    pub closed spec fn spec_bindings(&self) -> Seq<Binding> {
        self.bindings@
    }

    /// Builds a profile; the table must hold one binding per chord code.
    pub fn new(name: String, bindings: Vec<Binding>) -> (r: Option<Profile>)
        ensures
            bindings@.len() == CHORD_COUNT <==> r is Some,
            r matches Some(p) ==> p.spec_name() == name@ && p.spec_bindings() == bindings@,
    {
        if bindings.len() == CHORD_COUNT {
            Some(Profile { name, bindings })
        } else {
            None
        }
    }

    pub fn name(&self) -> (r: &String)
        ensures
            r@ == self.spec_name(),
    {
        &self.name
    }

    /// The binding of a chord code.
    pub fn binding(&self, code: u8) -> (r: &Binding)
        requires
            code < CHORD_COUNT,
        ensures
            *r == self.spec_bindings()[code as int],
    {
        proof {
            use_type_invariant(self);
        }
        &self.bindings[code as usize]
    }

    /// Decodes a notification and looks its chord code up in this profile.
    pub fn resolve(&self, payload: &[u8]) -> (r: Result<&Binding, DispatchError>)
        ensures
            match decode_spec(payload@) {
                Ok(c) => r matches Ok(b) && *b == self.spec_bindings()[c as int],
                Err(e) => r == Err::<&Binding, DispatchError>(e),
            },
    {
        match decode(payload) {
            Ok(c) => Ok(self.binding(c)),
            Err(e) => Err(e),
        }
    }
}

/// The key that the default "Letters" profile presses for a chord code;
/// zero where the code is left empty.
pub open spec fn letters_key_spec(code: int) -> KeyCode {
    if code == 1 { KEY_A }
    else if code == 2 { KEY_E }
    else if code == 3 { KEY_N }
    else if code == 4 { KEY_I }
    else if code == 5 { KEY_D }
    else if code == 6 { KEY_T }
    else if code == 8 { KEY_O }
    else if code == 9 { KEY_K }
    else if code == 10 { KEY_M }
    else if code == 11 { KEY_F }
    else if code == 12 { KEY_L }
    else if code == 13 { KEY_G }
    else if code == 15 { KEY_R }
    else if code == 16 { KEY_U }
    else if code == 17 { KEY_Y }
    else if code == 18 { KEY_B }
    else if code == 19 { KEY_P }
    else if code == 20 { KEY_Z }
    else if code == 21 { KEY_W }
    else if code == 22 { KEY_Q }
    else if code == 23 { KEY_J }
    else if code == 24 { KEY_S }
    else if code == 26 { KEY_X }
    else if code == 27 { KEY_V }
    else if code == 29 { KEY_C }
    else if code == 30 { KEY_H }
    else { 0 }
}

/// The binding of a chord code in the default "Letters" profile.
pub open spec fn letters_binding(code: int) -> Binding {
    if letters_key_spec(code) == 0 {
        Binding::Empty
    } else {
        Binding::PressKey(letters_key_spec(code))
    }
}

fn letters_key(code: u8) -> (r: KeyCode)
    ensures
        r == letters_key_spec(code as int),
{
    match code {
        1 => KEY_A,
        2 => KEY_E,
        3 => KEY_N,
        4 => KEY_I,
        5 => KEY_D,
        6 => KEY_T,
        8 => KEY_O,
        9 => KEY_K,
        10 => KEY_M,
        11 => KEY_F,
        12 => KEY_L,
        13 => KEY_G,
        15 => KEY_R,
        16 => KEY_U,
        17 => KEY_Y,
        18 => KEY_B,
        19 => KEY_P,
        20 => KEY_Z,
        21 => KEY_W,
        22 => KEY_Q,
        23 => KEY_J,
        24 => KEY_S,
        26 => KEY_X,
        27 => KEY_V,
        29 => KEY_C,
        30 => KEY_H,
        _ => 0,
    }
}

/// The default profile, named "Letters": single chords type letters, the
/// codes reserved for shift, backspace, enter, switch and space are empty.
pub fn letters_profile() -> (r: Profile)
    ensures
        r.spec_name() == "Letters"@,
        forall|c: int| 0 <= c < CHORD_COUNT ==> #[trigger] r.spec_bindings()[c] == letters_binding(c),
{
    let mut bindings: Vec<Binding> = Vec::new();
    let mut c: u8 = 0;
    while c < CHORD_COUNT as u8
        invariant
            c <= CHORD_COUNT,
            bindings@.len() == c,
            forall|j: int| 0 <= j < c ==> #[trigger] bindings@[j] == letters_binding(j),
        decreases CHORD_COUNT - c,
    {
        let k = letters_key(c);
        if k == 0 {
            bindings.push(Binding::Empty);
        } else {
            bindings.push(Binding::PressKey(k));
        }
        c += 1;
    }
    Profile { name: String::from_str("Letters"), bindings }
}

} // verus!
