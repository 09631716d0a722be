//! Button events as the game sees them: which key, and whether it went down or up.

use vstd::prelude::*;

use crate::misc::Direction;

verus! {

/// Whether a button went down or came up.
#[derive(Clone, Copy, Debug, PartialEq, Eq, Structural)]
pub enum ButtonState {
    Press,
    Release,
}

/// The keys the game gives a meaning to; every other key is `Other`.
#[derive(Clone, Copy, Debug, PartialEq, Eq, Structural)]
pub enum Key {
    W,
    A,
    S,
    D,
    V,
    L,
    Return,
    Tab,
    Other,
}

/// A button of any input device. Only keyboard buttons carry a meaning.
#[derive(Clone, Copy, Debug, PartialEq, Eq, Structural)]
pub enum Button {
    Keyboard(Key),
    Other,
}

/// The direction a key steers in: W north, A west, S south, D east.
/// No other key, and no missing key, steers.
pub open spec fn key_direction(key: Option<Key>) -> Option<Direction> {
    match key {
        Some(Key::W) => Some(Direction::North),
        Some(Key::A) => Some(Direction::West),
        Some(Key::S) => Some(Direction::South),
        Some(Key::D) => Some(Direction::East),
        _ => None,
    }
}

impl Key {
    /// The direction this key steers in, if it is a steering key.
    pub fn direction(&self) -> (dir: Option<Direction>)
        ensures
            dir == key_direction(Some(*self)),
    {
        match self {
            Key::W => Some(Direction::North),
            Key::A => Some(Direction::West),
            Key::S => Some(Direction::South),
            Key::D => Some(Direction::East),
            _ => None,
        }
    }
}

} // verus!
