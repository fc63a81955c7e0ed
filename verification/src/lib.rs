//! Phoneme sequences, reversed and spoken.
//!
//! The crate holds the verified core of a phoneme reverser: the reference
//! table of phonetic units, the selection and its pipeline state machine, the
//! waveform container codec on 16-bit samples, and the arithmetic of the
//! playback engine. Devices, files and child processes stay with the caller,
//! who hands their outcomes in as plain values.

pub mod audio;
pub mod command;
pub mod converter;
pub mod error;
pub mod phoneme;
pub mod playback;
pub mod synth;
pub mod text;
pub mod tui;

pub use error::PhonemeReverserError;
