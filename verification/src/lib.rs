//! Maps the notes of a Standard MIDI File onto the keys of a 12x4
//! ortholinear ("Planck") keyboard.
//!
//! The library parses a MIDI file's bytes into per-track note lists,
//! assigns every pitch a key label by a chromatic offset from a chosen
//! base key, and resolves General MIDI program numbers to instrument
//! names for track headings.

pub mod decimal;
pub mod instruments;
pub mod keyboard;
pub mod load;
pub mod tracks;

pub use decimal::u32_decimal;
pub use instruments::program_to_string;
pub use keyboard::{chromatic_planck_mapping, default_planck_rows, PlanckRows, MIDI_C_KEY};
pub use load::{is_midi_path, load_midi_tracks, LoadMidiFileError};
pub use tracks::{midi_key_tracks_from_events, MidiKeyPair, MidiKeyTrack, TrackEvent};
