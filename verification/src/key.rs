//! Keys, and what they mean on every screen.
use crate::message::Msg2Sub;
use vstd::prelude::*;

verus! {

/// A key, as far as the player knows it.
#[derive(Clone, Copy, Debug, PartialEq, Eq, Structural)]
pub enum KeyCode {
    Char(char),
    F(u8),
    Backspace,
    Down,
    End,
    Enter,
    Esc,
    Home,
    Left,
    Pause,
    Right,
    Tab,
    Up,
    Other,
}

/// The modifiers that are held, one bit each.
#[derive(Clone, Copy, Debug, PartialEq, Eq, Structural)]
pub struct KeyModifiers {
    pub bits: u8,
}

/// No modifier.
pub const NO_MODIFIER: u8 = 0;

/// The control key.
pub const CONTROL: u8 = 2;

/// A key that is pressed.
#[derive(Clone, Copy, Debug, PartialEq, Eq, Structural)]
pub struct KeyEvent {
    pub code: KeyCode,
    pub modifiers: KeyModifiers,
}

/// The keys that go up in a list.
pub open spec fn goes_up(code: KeyCode) -> bool {
    code is Up || code == KeyCode::Char('k')
}

/// The keys that go down in a list.
pub open spec fn goes_down(code: KeyCode) -> bool {
    code is Down || code == KeyCode::Char('j')
}

/// The keys that pause and go on.
pub open spec fn pauses(code: KeyCode) -> bool {
    code == KeyCode::Char('p') || code == KeyCode::F(8) || code is Pause || code == KeyCode::Char(' ')
}

/// The message to the playback that a key stands for on every screen.
pub open spec fn playback_message(code: KeyCode) -> Option<Msg2Sub> {
    if pauses(code) {
        Some(Msg2Sub::PauseUnpause)
    } else if code == KeyCode::Char('s') || code == KeyCode::F(9) {
        Some(Msg2Sub::Skip)
    } else if code == KeyCode::Char('m') || code == KeyCode::F(10) {
        Some(Msg2Sub::Mute)
    } else if code == KeyCode::Char('v') || code == KeyCode::F(11) {
        Some(Msg2Sub::DecreaseVolume)
    } else if code == KeyCode::Char('V') || code == KeyCode::F(12) {
        Some(Msg2Sub::IncreaseVolume)
    } else if code is Left {
        Some(Msg2Sub::MoveBackward)
    } else if code is Right {
        Some(Msg2Sub::MoveForward)
    } else if code == KeyCode::Char('L') {
        Some(Msg2Sub::ToggleLoop)
    } else {
        None
    }
}

} // verus!
