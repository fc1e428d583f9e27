//! The input layer of a terminal emulator.
//!
//! [`datatypes`] holds the vocabulary: logical keys, modifier state and the
//! input mode, together with the encoder that turns a key into the sequence a
//! controlling process expects. [`terminal`] holds the session: its screen
//! buffers and the decision whether a keystroke goes to a menu under the
//! cursor or out to the process.

pub mod datatypes;
pub mod terminal;
