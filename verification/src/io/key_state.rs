//! The modifier keys that are held.

use crate::io::key::{Key, KeyEvent, key_of_event};
use vstd::prelude::*;

verus! {

/// Which modifier keys are held down.
#[derive(Copy, Clone, Debug, PartialEq, Eq, Structural)]
pub struct KeyState {
    /// Ctrl modifier.
    pub ctrl: bool,
    /// Alt modifier.
    pub alt: bool,
    /// Shift modifier.
    pub shift: bool,
}

/// The scancode of the alt key.
pub open spec fn scan_alt() -> u8 {
    0x38
}

/// The scancode of the ctrl key.
pub open spec fn scan_ctrl() -> u8 {
    0x1D
}

/// The scancode of the left shift key.
pub open spec fn scan_left_shift() -> u8 {
    0x2A
}

/// The scancode of the right shift key.
pub open spec fn scan_right_shift() -> u8 {
    0x36
}

/// Whether the event is about a modifier key: it carries no character and
/// has the scancode of alt, ctrl or a shift key.
pub open spec fn is_modifier_event(k: KeyEvent) -> bool {
    k.character == '\0' && (k.scancode == scan_alt() || k.scancode == scan_ctrl() || k.scancode
        == scan_left_shift() || k.scancode == scan_right_shift())
}

/// The modifiers that are held after the event `k`.
pub open spec fn key_state_after(state: KeyState, k: KeyEvent) -> KeyState {
    if k.character != '\0' {
        state
    } else if k.scancode == scan_alt() {
        KeyState { alt: k.pressed, ..state }
    } else if k.scancode == scan_ctrl() {
        KeyState { ctrl: k.pressed, ..state }
    } else if k.scancode == scan_left_shift() || k.scancode == scan_right_shift() {
        KeyState { shift: k.pressed, ..state }
    } else {
        state
    }
}

/// The key that the event `k` contributes to the input: none for a modifier
/// key and for a release, else the key that the event stands for.
pub open spec fn key_fed(k: KeyEvent) -> Option<Key> {
    if is_modifier_event(k) || !k.pressed {
        None
    } else {
        Some(key_of_event(k))
    }
}

/// `orbclient::K_ALT`, the scancode of the alt key: `0x38`.
#[verifier::external_body]
fn k_alt() -> (code: u8)
    ensures
        code == scan_alt(),
{
    orbclient::K_ALT
}

/// `orbclient::K_CTRL`, the scancode of the ctrl key: `0x1D`.
#[verifier::external_body]
fn k_ctrl() -> (code: u8)
    ensures
        code == scan_ctrl(),
{
    orbclient::K_CTRL
}

/// `orbclient::K_LEFT_SHIFT`, the scancode of the left shift key: `0x2A`.
#[verifier::external_body]
fn k_left_shift() -> (code: u8)
    ensures
        code == scan_left_shift(),
{
    orbclient::K_LEFT_SHIFT
}

/// `orbclient::K_RIGHT_SHIFT`, the scancode of the right shift key: `0x36`.
#[verifier::external_body]
fn k_right_shift() -> (code: u8)
    ensures
        code == scan_right_shift(),
{
    orbclient::K_RIGHT_SHIFT
}

impl KeyState {
    /// No modifier is held.
    pub fn new() -> (state: KeyState)
        ensures
            state == (KeyState { ctrl: false, alt: false, shift: false }),
    {
        KeyState { ctrl: false, alt: false, shift: false }
    }

    /// Takes in a key event: a modifier key changes what is held, any other
    /// key that goes down is handed on.
    pub fn feed(&mut self, k: KeyEvent) -> (key: Option<Key>)
        ensures
            *final(self) == key_state_after(*old(self), k),
            key == key_fed(k),
    {
        if k.character == '\0' {
            let s = k.scancode;
            if s == k_alt() {
                self.alt = k.pressed;
            } else if s == k_ctrl() {
                self.ctrl = k.pressed;
            } else if s == k_left_shift() || s == k_right_shift() {
                self.shift = k.pressed;
            } else if k.pressed {
                return Some(Key::from_event(k));
            }
            None
        } else if k.pressed {
            Some(Key::from_event(k))
        } else {
            None
        }
    }
}

} // verus!
