//! Typing-keyboard note input.
//!
//! Two rows of the typing keyboard act as two piano octaves starting at
//! C3 (note number 48): the bottom letter row with the home row as its
//! sharps, and the top letter row with the digit row as its sharps.

use vstd::prelude::*;

verus! {

/// Note number of C3, the lowest note the typing keyboard reaches.
pub const C3_MIDI_VALUE: usize = 48;

/// A typing-keyboard key the synthesizer cares about: the two playable
/// octaves plus the key that asks for an external controller.
#[derive(Clone, Copy, PartialEq, Eq, Structural, Debug)]
pub enum Key {
    Z,
    S,
    X,
    D,
    C,
    V,
    G,
    B,
    H,
    N,
    J,
    M,
    Q,
    Key2,
    W,
    Key3,
    E,
    R,
    Key5,
    T,
    Key6,
    Y,
    Key7,
    U,
    I,
    Semicolon,
}

/// The note number a key plays: the keys of the layout map to the
/// chromatic scale from C3 upward in layout order; a key outside the
/// layout plays nothing.
pub open spec fn spec_key_note(key: Key) -> Option<usize> {
    match key {
        Key::Z => Some(48usize),
        Key::S => Some(49usize),
        Key::X => Some(50usize),
        Key::D => Some(51usize),
        Key::C => Some(52usize),
        Key::V => Some(53usize),
        Key::G => Some(54usize),
        Key::B => Some(55usize),
        Key::H => Some(56usize),
        Key::N => Some(57usize),
        Key::J => Some(58usize),
        Key::M => Some(59usize),
        Key::Q => Some(60usize),
        Key::Key2 => Some(61usize),
        Key::W => Some(62usize),
        Key::Key3 => Some(63usize),
        Key::E => Some(64usize),
        Key::R => Some(65usize),
        Key::Key5 => Some(66usize),
        Key::T => Some(67usize),
        Key::Key6 => Some(68usize),
        Key::Y => Some(69usize),
        Key::Key7 => Some(70usize),
        Key::U => Some(71usize),
        Key::I => Some(72usize),
        Key::Semicolon => None,
    }
}

/// Parses a typing-keyboard key as note input: the note number the key
/// plays, always inside the note table, or nothing for a key outside
/// the playable layout.
pub fn parse_key_as_note_input(key: Key) -> (note: Option<usize>)
    ensures
        note == spec_key_note(key),
        note matches Some(index) ==> C3_MIDI_VALUE <= index <= C3_MIDI_VALUE + 24,
{
    match key {
        Key::Z => Some(48),
        Key::S => Some(49),
        Key::X => Some(50),
        Key::D => Some(51),
        Key::C => Some(52),
        Key::V => Some(53),
        Key::G => Some(54),
        Key::B => Some(55),
        Key::H => Some(56),
        Key::N => Some(57),
        Key::J => Some(58),
        Key::M => Some(59),
        Key::Q => Some(60),
        Key::Key2 => Some(61),
        Key::W => Some(62),
        Key::Key3 => Some(63),
        Key::E => Some(64),
        Key::R => Some(65),
        Key::Key5 => Some(66),
        Key::T => Some(67),
        Key::Key6 => Some(68),
        Key::Y => Some(69),
        Key::Key7 => Some(70),
        Key::U => Some(71),
        Key::I => Some(72),
        Key::Semicolon => None,
    }
}

} // verus!
