//! Key events as the input layer delivers them, and the directions that
//! some of them stand for.

use vstd::prelude::*;

verus! {

/// A media key.
#[derive(Debug, Clone, Copy, PartialEq, Eq, Structural)]
pub enum MediaKeyCode {
    Play,
    Pause,
    PlayPause,
    Reverse,
    Stop,
    FastForward,
    Rewind,
    TrackNext,
    TrackPrevious,
    Record,
    LowerVolume,
    RaiseVolume,
    MuteVolume,
}

/// A modifier key pressed by itself.
#[derive(Debug, Clone, Copy, PartialEq, Eq, Structural)]
pub enum ModifierKeyCode {
    LeftShift,
    LeftControl,
    LeftAlt,
    LeftSuper,
    LeftHyper,
    LeftMeta,
    RightShift,
    RightControl,
    RightAlt,
    RightSuper,
    RightHyper,
    RightMeta,
    IsoLevel3Shift,
    IsoLevel5Shift,
}

/// The key of a key event.
#[derive(Debug, Clone, Copy, PartialEq, Eq, Structural)]
pub enum KeyCode {
    Backspace,
    Enter,
    Left,
    Right,
    Up,
    Down,
    Home,
    End,
    PageUp,
    PageDown,
    Tab,
    BackTab,
    Delete,
    Insert,
    F(u8),
    Char(char),
    Null,
    Esc,
    CapsLock,
    ScrollLock,
    NumLock,
    PrintScreen,
    Pause,
    Menu,
    KeypadBegin,
    Media(MediaKeyCode),
    Modifier(ModifierKeyCode),
}

/// The modifier keys held down with a key, one bit each.
#[derive(Debug, Clone, Copy, PartialEq, Eq, Structural)]
pub struct KeyModifiers {
    pub bits: u8,
}

pub const SHIFT: u8 = 0x01;

pub const CONTROL: u8 = 0x02;

pub const ALT: u8 = 0x04;

pub const SUPER: u8 = 0x08;

pub const HYPER: u8 = 0x10;

pub const META: u8 = 0x20;

impl KeyModifiers {
    pub fn new(bits: u8) -> (modifiers: Self)
        ensures
            modifiers.bits == bits,
    {
        Self { bits }
    }

    /// No modifier at all.
    pub fn none() -> (modifiers: Self)
        ensures
            modifiers.bits == 0,
    {
        Self { bits: 0 }
    }

    /// Whether every bit of `mask` is set.
    pub open spec fn spec_contains(self, mask: u8) -> bool {
        self.bits & mask == mask
    }

    #[verifier::when_used_as_spec(spec_contains)]
    pub fn contains(self, mask: u8) -> (all: bool)
        ensures
            all == self.spec_contains(mask),
    {
        self.bits & mask == mask
    }
}

/// A key press: the key and the modifiers held with it.
#[derive(Debug, Clone, Copy, PartialEq, Eq, Structural)]
pub struct KeyEvent {
    pub code: KeyCode,
    pub modifiers: KeyModifiers,
}

impl KeyEvent {
    pub fn new(code: KeyCode, modifiers: KeyModifiers) -> (key: Self)
        ensures
            key == (KeyEvent { code, modifiers }),
    {
        Self { code, modifiers }
    }
}

/// An input event. Only key presses steer a tab; the others pass through it
/// unnoticed.
#[derive(Debug, Clone, Copy, PartialEq, Eq, Structural)]
pub enum Event {
    FocusGained,
    FocusLost,
    Key(KeyEvent),
    Mouse(u16, u16),
    Paste,
    Resize(u16, u16),
}

/// A direction of travel on the grid.
#[derive(Debug, Clone, Copy, PartialEq, Eq, Structural)]
pub enum Retning {
    Up,
    Down,
    Left,
    Right,
}

/// The direction that a key stands for: the four arrow keys, and `h`, `j`,
/// `k`, `l` for left, down, up, right. Every other key stands for none.
pub open spec fn spec_direction(code: KeyCode) -> Option<Retning> {
    match code {
        KeyCode::Left => Some(Retning::Left),
        KeyCode::Right => Some(Retning::Right),
        KeyCode::Up => Some(Retning::Up),
        KeyCode::Down => Some(Retning::Down),
        KeyCode::Char(c) => if c == 'k' {
            Some(Retning::Up)
        } else if c == 'j' {
            Some(Retning::Down)
        } else if c == 'h' {
            Some(Retning::Left)
        } else if c == 'l' {
            Some(Retning::Right)
        } else {
            None
        },
        _ => None,
    }
}

impl TryFrom<KeyEvent> for Retning {
    type Error = ();

    /// The direction of a key press, whatever modifiers are held with it.
    fn try_from(value: KeyEvent) -> (direction: Result<Self, ()>) {
        match value.code {
            KeyCode::Left => Ok(Self::Left),
            KeyCode::Right => Ok(Self::Right),
            KeyCode::Up => Ok(Self::Up),
            KeyCode::Down => Ok(Self::Down),
            KeyCode::Char(c) => if c == 'k' {
                Ok(Self::Up)
            } else if c == 'j' {
                Ok(Self::Down)
            } else if c == 'h' {
                Ok(Self::Left)
            } else if c == 'l' {
                Ok(Self::Right)
            } else {
                Err(())
            },
            _ => Err(()),
        }
    }
}

impl vstd::std_specs::convert::TryFromSpecImpl<KeyEvent> for Retning {
    open spec fn obeys_try_from_spec() -> bool {
        true
    }

    open spec fn try_from_spec(value: KeyEvent) -> Result<Self, ()> {
        match spec_direction(value.code) {
            Some(d) => Ok(d),
            None => Err(()),
        }
    }
}

/// The direction of a key press made with Alt held down, and none without
/// Alt.
pub fn with_modifier(value: KeyEvent) -> (direction: Option<Retning>)
    ensures
        direction == if value.modifiers.spec_contains(ALT) {
            spec_direction(value.code)
        } else {
            None
        },
{
    if value.modifiers.contains(ALT) {
        return match Retning::try_from(value) {
            Ok(d) => Some(d),
            Err(_) => None,
        };
    }
    None
}

/// A key code that can be made from a key code or from a plain character.
#[derive(Debug, Clone, Copy, PartialEq, Eq, Structural)]
pub struct Wrapper(pub KeyCode);

impl From<KeyCode> for Wrapper {
    fn from(value: KeyCode) -> (wrapped: Self) {
        Self(value)
    }
}

impl vstd::std_specs::convert::FromSpecImpl<KeyCode> for Wrapper {
    open spec fn obeys_from_spec() -> bool {
        true
    }

    open spec fn from_spec(value: KeyCode) -> Self {
        Wrapper(value)
    }
}

impl From<char> for Wrapper {
    fn from(c: char) -> (wrapped: Self) {
        Self(KeyCode::Char(c))
    }
}

impl vstd::std_specs::convert::FromSpecImpl<char> for Wrapper {
    open spec fn obeys_from_spec() -> bool {
        true
    }

    open spec fn from_spec(c: char) -> Self {
        Wrapper(KeyCode::Char(c))
    }
}

impl From<Wrapper> for KeyCode {
    fn from(value: Wrapper) -> (code: Self) {
        value.0
    }
}

impl vstd::std_specs::convert::FromSpecImpl<Wrapper> for KeyCode {
    open spec fn obeys_from_spec() -> bool {
        true
    }

    open spec fn from_spec(value: Wrapper) -> Self {
        value.0
    }
}

} // verus!
