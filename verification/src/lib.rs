//! In-memory data model for a music sequencer pattern: the twelve chromatic
//! pitch classes with their MIDI-style numeric encoding, and a fixed-length
//! grid of time steps that sparsely holds note events.

pub mod pattern;
pub mod pitch;

pub use pattern::Effect;
pub use pattern::Pattern;
pub use pattern::Row;
pub use pitch::Note;
pub use pitch::NoteName;
