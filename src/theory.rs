//! Theory is the toolkit for working with notes in terms of piano keys and intervals.

pub mod interval;
pub mod semitone;
pub mod text;
pub mod error;
pub mod scale;
pub mod note;
pub mod piano_key;
pub mod key;
