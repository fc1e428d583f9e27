//! Abstract datatypes passed between the components of the terminal.
//!
//! Every method of a type in this module takes its receiver immutably.

use vstd::prelude::*;

pub mod key;

pub use self::key::{Key, Modifiers};

verus! {

/// Data that could be placed in a character cell.
#[derive(Debug, PartialEq, Eq)]
pub enum CellData {
    /// A single unicode code point.
    Char(char),
    /// An extension code point such as U+301. Normally, writing this to the
    /// screen does not overwrite a cell, but instead applies it to the char in
    /// the cell.
    ExtensionChar(char),
    /// A multi code-point grapheme, such as a Hangul triplet.
    Grapheme(String),
    /// Non-character data, with a mime type and some binary data.
    Data(String, Vec<u8>),
}

impl CellData {
    /// Whether `other` holds the same kind of data with the same contents.
    pub open spec fn same(&self, other: &CellData) -> bool {
        match (*self, *other) {
            (CellData::Char(a), CellData::Char(b)) => a == b,
            (CellData::ExtensionChar(a), CellData::ExtensionChar(b)) => a == b,
            (CellData::Grapheme(a), CellData::Grapheme(b)) => a@ == b@,
            (CellData::Data(mime_a, a), CellData::Data(mime_b, b)) => mime_a@ == mime_b@ && a@ == b@,
            _ => false,
        }
    }
}

impl Clone for CellData {
    fn clone(&self) -> (copy: CellData)
        ensures
            copy.same(self),
    {
        match self {
            CellData::Char(c) => CellData::Char(*c),
            CellData::ExtensionChar(c) => CellData::ExtensionChar(*c),
            CellData::Grapheme(text) => CellData::Grapheme(text.clone()),
            CellData::Data(mime, bytes) => CellData::Data(mime.clone(), bytes.clone()),
        }
    }
}

/// A kind of escape code format (used for structuring response strings).
#[derive(Copy, Clone, Debug, PartialEq, Eq, Structural)]
pub enum Code {
    ANSI,
    Natty,
}

/// A 24-bit rgb color sequence.
#[derive(Copy, Clone, Debug, PartialEq, Eq, Structural)]
pub struct Color(pub u8, pub u8, pub u8);

/// A coordinate pair.
#[derive(Copy, Clone, Debug, PartialEq, Eq, Structural)]
pub struct Coords {
    pub x: u32,
    pub y: u32,
}

impl Default for Coords {
    /// The origin.
    fn default() -> (origin: Coords)
        ensures
            origin == (Coords { x: 0, y: 0 }),
    {
        Coords { x: 0, y: 0 }
    }
}

/// A direction of movement across the grid.
#[derive(Copy, Clone, Debug, PartialEq, Eq, Structural)]
pub enum Direction {
    Up,
    Down,
    Left,
    Right,
}

/// An event that can be sent to the input processor.
#[derive(Debug, PartialEq, Eq)]
pub enum InputEvent {
    /// Data which will be transmitted to the controlling process (usually
    /// keyboard input).
    Key(Key),
    /// A mode shift for how the processor should transmit data.
    Mode(InputMode),
}

impl Clone for InputEvent {
    fn clone(&self) -> (copy: InputEvent)
        ensures
            copy == *self,
    {
        match self {
            InputEvent::Key(key) => InputEvent::Key(key.clone()),
            InputEvent::Mode(mode) => InputEvent::Mode(*mode),
        }
    }
}

/// Set rich text styles. Booleans represent on or off.
#[derive(Copy, Clone, Debug, PartialEq, Eq, Structural)]
pub enum Style {
    /// Field is number of underlines (between 0 and 2).
    Underline(u8),
    Bold(bool),
    Italic(bool),
    Blink(bool),
    InvertColors(bool),
    Strikethrough(bool),
    Opacity(u8),
    FgColor(Color),
    FgColorCfg(Option<u8>),
    BgColor(Color),
    BgColorCfg(Option<u8>),
}

/// The mode the input processor is in.
#[derive(Copy, Clone, Debug, PartialEq, Eq, Structural)]
pub enum InputMode {
    /// ANSI-compatible mode.
    Ansi,
    /// ANSI-compatible mode with application arrow key input.
    Application,
    /// The extended mode, for which no encoding table has been defined.
    Extended,
}

} // verus!
