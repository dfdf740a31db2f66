//! The sixteen-key hexadecimal keypad and its mapping from host keys.

use std::collections::HashSet;
use vstd::prelude::*;

verus! {

broadcast use vstd::std_specs::hash::group_hash_axioms;

/// A key of the host keyboard: the sixteen keys that stand for the keypad,
/// and `Other` for every key that does not.
#[derive(Clone, Copy, Debug, PartialEq, Eq)]
pub enum HostKey {
    Num1,
    Num2,
    Num3,
    Num4,
    Q,
    W,
    E,
    R,
    A,
    S,
    D,
    F,
    Z,
    X,
    C,
    V,
    Other,
}

/// The keypad code that a host key stands for, if any:
///
/// ```text
/// 1 2 3 4      1 2 3 C
/// Q W E R  ->  4 5 6 D
/// A S D F      7 8 9 E
/// Z X C V      A 0 B F
/// ```
pub open spec fn key_hex(key: HostKey) -> Option<u8> {
    match key {
        HostKey::Num1 => Some(0x1u8),
        HostKey::Num2 => Some(0x2u8),
        HostKey::Num3 => Some(0x3u8),
        HostKey::Num4 => Some(0xCu8),
        HostKey::Q => Some(0x4u8),
        HostKey::W => Some(0x5u8),
        HostKey::E => Some(0x6u8),
        HostKey::R => Some(0xDu8),
        HostKey::A => Some(0x7u8),
        HostKey::S => Some(0x8u8),
        HostKey::D => Some(0x9u8),
        HostKey::F => Some(0xEu8),
        HostKey::Z => Some(0xAu8),
        HostKey::X => Some(0x0u8),
        HostKey::C => Some(0xBu8),
        HostKey::V => Some(0xFu8),
        HostKey::Other => None,
    }
}

/// The keypad state as mathematical values.
pub struct KeyboardState {
    /// The keypad codes that are currently down.
    pub pressed: Set<u8>,
    /// The keypad code of the latest key press that was understood.
    pub last_pressed: Option<u8>,
}

/// The keypad after the most recent press has been let go and `key` went
/// down: a key that stands for no keypad code only lets go.
pub open spec fn state_after_press(before: KeyboardState, key: HostKey) -> KeyboardState {
    let released = state_after_release(before, before.last_pressed).pressed;
    match key_hex(key) {
        Some(hex) => KeyboardState { pressed: released.insert(hex), last_pressed: Some(hex) },
        None => KeyboardState { pressed: released, last_pressed: before.last_pressed },
    }
}

/// The keypad after `hex_code`, if there is one, has been let go.
pub open spec fn state_after_release(before: KeyboardState, hex_code: Option<u8>) -> KeyboardState {
    match hex_code {
        Some(hex) => KeyboardState { pressed: before.pressed.remove(hex), ..before },
        None => before,
    }
}

/// No key is down but, at most, the most recently pressed one.
pub open spec fn single_key_latched(state: KeyboardState) -> bool {
    forall|hex: u8| state.pressed.contains(hex) ==> state.last_pressed == Some(hex)
}

/// The keypad: which keys are down, and which was pressed last.
pub struct Keyboard {
    pressed_keys: HashSet<u8>,
    last_pressed: Option<u8>,
}

impl View for Keyboard {
    type V = KeyboardState;

    closed spec fn view(&self) -> KeyboardState {
        KeyboardState { pressed: self.pressed_keys@, last_pressed: self.last_pressed }
    }
}

impl Keyboard {
    /// A keypad with no key down.
    pub fn new() -> (out: Keyboard)
        ensures
            out@.pressed == Set::<u8>::empty(),
            out@.last_pressed.is_none(),
    {
        Keyboard { pressed_keys: HashSet::new(), last_pressed: None }
    }

    /// The keypad code that `scancode` stands for, if any.
    pub fn scancode_to_hex(scancode: HostKey) -> (out: Option<u8>)
        ensures
            out == key_hex(scancode),
    {
        match scancode {
            HostKey::Num1 => Some(0x1),
            HostKey::Num2 => Some(0x2),
            HostKey::Num3 => Some(0x3),
            HostKey::Num4 => Some(0xC),
            HostKey::Q => Some(0x4),
            HostKey::W => Some(0x5),
            HostKey::E => Some(0x6),
            HostKey::R => Some(0xD),
            HostKey::A => Some(0x7),
            HostKey::S => Some(0x8),
            HostKey::D => Some(0x9),
            HostKey::F => Some(0xE),
            HostKey::Z => Some(0xA),
            HostKey::X => Some(0x0),
            HostKey::C => Some(0xB),
            HostKey::V => Some(0xF),
            HostKey::Other => None,
        }
    }

    /// The host key that stands for keypad code `hex`, if `hex` is one.
    pub fn hex_to_scancode(hex: u8) -> (out: Option<HostKey>)
        ensures
            hex < 16 ==> out is Some && key_hex(out->Some_0) == Some(hex),
            hex >= 16 ==> out is None,
    {
        match hex {
            0x1 => Some(HostKey::Num1),
            0x2 => Some(HostKey::Num2),
            0x3 => Some(HostKey::Num3),
            0xC => Some(HostKey::Num4),
            0x4 => Some(HostKey::Q),
            0x5 => Some(HostKey::W),
            0x6 => Some(HostKey::E),
            0xD => Some(HostKey::R),
            0x7 => Some(HostKey::A),
            0x8 => Some(HostKey::S),
            0x9 => Some(HostKey::D),
            0xE => Some(HostKey::F),
            0xA => Some(HostKey::Z),
            0x0 => Some(HostKey::X),
            0xB => Some(HostKey::C),
            0xF => Some(HostKey::V),
            _ => None,
        }
    }

    /// Registers a key going down: lets go of the most recently pressed key
    /// first, then records the new one if it stands for a keypad code.
    pub fn press_key(&mut self, scancode: HostKey)
        ensures
            final(self)@ == state_after_press(old(self)@, scancode),
            single_key_latched(old(self)@) ==> single_key_latched(final(self)@),
    {
        self.release_key(self.last_pressed);
        if let Some(code) = Self::scancode_to_hex(scancode) {
            self.pressed_keys.insert(code);
            self.last_pressed = Some(code);
        }
    }

    /// Lets go of a keypad key, if one is named.
    pub fn release_key(&mut self, hex_code: Option<u8>)
        ensures
            final(self)@ == state_after_release(old(self)@, hex_code),
            single_key_latched(old(self)@) ==> single_key_latched(final(self)@),
    {
        if let Some(hex) = hex_code {
            self.pressed_keys.remove(&hex);
        }
    }

    /// Registers a key going up: lets go of the keypad key that `scancode`
    /// stands for, if it stands for one.
    pub fn release_scancode(&mut self, scancode: HostKey)
        ensures
            final(self)@ == state_after_release(old(self)@, key_hex(scancode)),
            single_key_latched(old(self)@) ==> single_key_latched(final(self)@),
    {
        self.release_key(Self::scancode_to_hex(scancode));
    }

    /// Whether keypad key `keycode` is down.
    pub fn is_pressed(&self, keycode: u8) -> (out: bool)
        ensures
            out == self@.pressed.contains(keycode),
    {
        self.pressed_keys.contains(&keycode)
    }
}

} // verus!
