//! The output module turns a key into a stream of notes, and defines the
//! strategies that pick them.

pub mod music_maker;
pub mod seed;

pub use music_maker::MusicMaker;
