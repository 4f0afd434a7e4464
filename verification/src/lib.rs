//! Metadata of audio files, resolved field by field from several tag readers.

pub mod audio;
pub mod gatherer;
pub mod number;
pub mod parser;
pub mod text;
