//! A procedural melody generator: equal-tempered music theory values and a
//! sample-accurate note-switching engine.

pub mod output;
pub mod theory;
