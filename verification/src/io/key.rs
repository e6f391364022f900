//! Keys, and how a key event of the window system becomes one.

use vstd::prelude::*;

verus! {

/// A key event as the window system reports it: the character it carries
/// (`'\0'` for none), the scancode of the key, and whether the key went down.
#[derive(Copy, Clone, Debug, PartialEq, Eq, Structural)]
pub struct KeyEvent {
    /// The character of the event, `'\0'` where it has none.
    pub character: char,
    /// The scancode of the key.
    pub scancode: u8,
    /// Whether the key was pressed (rather than released).
    pub pressed: bool,
}

/// A key.
#[derive(Copy, Clone, Debug, PartialEq, Eq, Structural)]
pub enum Key {
    /// Printable character.
    Char(char),
    /// Backspace.
    Backspace,
    /// Escape.
    Escape,
    /// Left arrow key.
    Left,
    /// Right arrow key.
    Right,
    /// Up arrow key.
    Up,
    /// Down arrow key.
    Down,
    /// Tab.
    Tab,
    /// No key.
    Null,
    /// Quit (the window was closed).
    Quit,
    /// A key without a character that the editor has no name for.
    Unknown(u8),
}

/// A command: a key together with the modifiers that were held when it
/// arrived.
#[derive(Copy, Clone, Debug, PartialEq, Eq, Structural)]
pub struct Cmd {
    /// The key of the command.
    pub key: Key,
    /// Whether shift was held.
    pub shift: bool,
    /// Whether alt was held.
    pub alt: bool,
    /// Whether ctrl was held.
    pub ctrl: bool,
}

/// The scancode of the backspace key.
pub open spec fn scan_backspace() -> u8 {
    0x0E
}

/// The scancode of the tab key.
pub open spec fn scan_tab() -> u8 {
    0x0F
}

/// The scancode of the escape key.
pub open spec fn scan_escape() -> u8 {
    0x01
}

/// The scancode of the up arrow key.
pub open spec fn scan_up() -> u8 {
    0x48
}

/// The scancode of the left arrow key.
pub open spec fn scan_left() -> u8 {
    0x4B
}

/// The scancode of the right arrow key.
pub open spec fn scan_right() -> u8 {
    0x4D
}

/// The scancode of the down arrow key.
pub open spec fn scan_down() -> u8 {
    0x50
}

/// The key that a key event stands for: no key for a release; the named
/// key for the scancode of backspace, an arrow, tab or escape; else the
/// character of the event, or an unknown key where it carries none.
pub open spec fn key_of_event(k: KeyEvent) -> Key {
    if !k.pressed {
        Key::Null
    } else if k.scancode == scan_backspace() {
        Key::Backspace
    } else if k.scancode == scan_left() {
        Key::Left
    } else if k.scancode == scan_right() {
        Key::Right
    } else if k.scancode == scan_up() {
        Key::Up
    } else if k.scancode == scan_down() {
        Key::Down
    } else if k.scancode == scan_tab() {
        Key::Tab
    } else if k.scancode == scan_escape() {
        Key::Escape
    } else if k.character == '\0' {
        Key::Unknown(k.scancode)
    } else {
        Key::Char(k.character)
    }
}

/// `orbclient::K_BKSP`, the scancode of the backspace key: `0x0E`.
#[verifier::external_body]
fn k_bksp() -> (code: u8)
    ensures
        code == scan_backspace(),
{
    orbclient::K_BKSP
}

/// `orbclient::K_TAB`, the scancode of the tab key: `0x0F`.
#[verifier::external_body]
fn k_tab() -> (code: u8)
    ensures
        code == scan_tab(),
{
    orbclient::K_TAB
}

/// `orbclient::K_ESC`, the scancode of the escape key: `0x01`.
#[verifier::external_body]
fn k_esc() -> (code: u8)
    ensures
        code == scan_escape(),
{
    orbclient::K_ESC
}

/// `orbclient::K_UP`, the scancode of the up arrow key: `0x48`.
#[verifier::external_body]
fn k_up() -> (code: u8)
    ensures
        code == scan_up(),
{
    orbclient::K_UP
}

/// `orbclient::K_LEFT`, the scancode of the left arrow key: `0x4B`.
#[verifier::external_body]
fn k_left() -> (code: u8)
    ensures
        code == scan_left(),
{
    orbclient::K_LEFT
}

/// `orbclient::K_RIGHT`, the scancode of the right arrow key: `0x4D`.
#[verifier::external_body]
fn k_right() -> (code: u8)
    ensures
        code == scan_right(),
{
    orbclient::K_RIGHT
}

/// `orbclient::K_DOWN`, the scancode of the down arrow key: `0x50`.
#[verifier::external_body]
fn k_down() -> (code: u8)
    ensures
        code == scan_down(),
{
    orbclient::K_DOWN
}

impl Key {
    /// The key that a key event stands for.
    pub fn from_event(k: KeyEvent) -> (key: Key)
        ensures
            key == key_of_event(k),
    {
        if k.pressed {
            let s = k.scancode;
            if s == k_bksp() {
                Key::Backspace
            } else if s == k_left() {
                Key::Left
            } else if s == k_right() {
                Key::Right
            } else if s == k_up() {
                Key::Up
            } else if s == k_down() {
                Key::Down
            } else if s == k_tab() {
                Key::Tab
            } else if s == k_esc() {
                Key::Escape
            } else if k.character == '\0' {
                Key::Unknown(s)
            } else {
                Key::Char(k.character)
            }
        } else {
            Key::Null
        }
    }

    /// The character of the key; the null character where it has none.
    pub open spec fn spec_to_char(self) -> char {
        match self {
            Key::Char(c) => c,
            _ => '\0',
        }
    }

    /// The character of the key; the null character where it has none.
    #[verifier::when_used_as_spec(spec_to_char)]
    pub fn to_char(self) -> (c: char)
        ensures
            c == self.spec_to_char(),
    {
        match self {
            Key::Char(c) => c,
            _ => '\0',
        }
    }
}

impl Cmd {
    /// The command of `key` with no modifier held.
    pub fn new(key: Key) -> (cmd: Cmd)
        ensures
            cmd == (Cmd { key, shift: false, alt: false, ctrl: false }),
    {
        Cmd { key, shift: false, alt: false, ctrl: false }
    }
}

} // verus!
