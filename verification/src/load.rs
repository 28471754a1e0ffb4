//! Loading a Standard MIDI File: the parse call and the loader's
//! error type.

use std::collections::HashMap;
use vstd::prelude::*;

use crate::tracks::{
    midi_key_tracks_from_events, spec_midi_key_tracks, MidiKeyTrack, TrackEvent,
};

verus! {

/// midly's parse error, carried opaquely.
#[verifier::external_type_specification]
#[verifier::external_body]
pub struct ExMidlyError(midly::Error);

/// std's I/O error, carried opaquely; the front end stores one here
/// when reading the file itself fails.
#[verifier::external_type_specification]
#[verifier::external_body]
pub struct ExIoError(std::io::Error);

/// What `midly::Smf::parse` makes of a file's bytes: `None` when it
/// rejects them, and otherwise the events of each track in file order,
/// reduced to note-ons, program changes and `Other`.
pub uninterp spec fn smf_track_events(bytes: Seq<u8>) -> Option<Seq<Seq<TrackEvent>>>;

/// Relies on midly::Smf::parse: whether the bytes form a well-formed
/// Standard MIDI File, and which events each track holds, depend on
/// the bytes alone.
#[verifier::external_body]
fn parse_track_events(bytes: &[u8]) -> (r: Result<Vec<Vec<TrackEvent>>, midly::Error>)
    ensures
        (r is Ok) == (smf_track_events(bytes@) is Some),
        r is Ok ==> r->Ok_0.deep_view() == smf_track_events(bytes@)->Some_0,
{
    match midly::Smf::parse(bytes) {
        Ok(smf) => Ok(smf.tracks.iter().map(|track| track.iter().map(|event| match event.kind {
            midly::TrackEventKind::Midi { message: midly::MidiMessage::NoteOn { key, .. }, .. } => TrackEvent::NoteOn { key: key.as_int() },
            midly::TrackEventKind::Midi { message: midly::MidiMessage::ProgramChange { program }, .. } => TrackEvent::ProgramChange { program: program.as_int() },
            _ => TrackEvent::Other,
        }).collect()).collect()),
        Err(e) => Err(e),
    }
}

/// Whether `s` ends in `suffix`.
pub open spec fn spec_has_suffix(s: Seq<char>, suffix: Seq<char>) -> bool {
    s.len() >= suffix.len() && s.subrange(s.len() - suffix.len(), s.len() as int) == suffix
}

/// Whether a path names a MIDI file by its extension.
pub open spec fn spec_is_midi_path(s: Seq<char>) -> bool {
    spec_has_suffix(s, ".mid"@) || spec_has_suffix(s, ".midi"@)
}

fn str_has_suffix(s: &str, suffix: &str) -> (r: bool)
    ensures
        r == spec_has_suffix(s@, suffix@),
{
    let n = s.unicode_len();
    let m = suffix.unicode_len();
    if m > n {
        return false;
    }
    let mut i: usize = 0;
    while i < m
        invariant
            n == s@.len(),
            m == suffix@.len(),
            m <= n,
            i <= m,
            forall|j: int| 0 <= j < i ==> s@[n - m + j] == suffix@[j],
        decreases m - i,
    {
        if s.get_char(n - m + i) != suffix.get_char(i) {
            proof {
                assert(s@.subrange(n - m, n as int)[i as int] == s@[n - m + i]);
            }
            return false;
        }
        i = i + 1;
    }
    proof {
        assert(s@.subrange(n - m, n as int) =~= suffix@);
    }
    true
}

/// Whether the file at `path` is picked up when dropped onto the
/// window: only paths ending in `.mid` or `.midi` are.
pub fn is_midi_path(path: &str) -> (r: bool)
    ensures
        r == spec_is_midi_path(path@),
{
    str_has_suffix(path, ".mid") || str_has_suffix(path, ".midi")
}

/// Why loading a MIDI file failed.
#[derive(Debug)]
pub enum LoadMidiFileError {
    /// The file could not be read.
    IOError(std::io::Error),
    /// The bytes do not form a well-formed Standard MIDI File.
    MidlyError(midly::Error),
    /// No track exists.
    NoTrackError,
}

impl From<std::io::Error> for LoadMidiFileError {
    fn from(value: std::io::Error) -> Self {
        LoadMidiFileError::IOError(value)
    }
}

impl vstd::std_specs::convert::FromSpecImpl<std::io::Error> for LoadMidiFileError {
    open spec fn obeys_from_spec() -> bool {
        true
    }

    open spec fn from_spec(v: std::io::Error) -> Self {
        LoadMidiFileError::IOError(v)
    }
}

impl From<midly::Error> for LoadMidiFileError {
    fn from(value: midly::Error) -> Self {
        LoadMidiFileError::MidlyError(value)
    }
}

impl vstd::std_specs::convert::FromSpecImpl<midly::Error> for LoadMidiFileError {
    open spec fn obeys_from_spec() -> bool {
        true
    }

    open spec fn from_spec(v: midly::Error) -> Self {
        LoadMidiFileError::MidlyError(v)
    }
}

/// Parses the bytes of a Standard MIDI File and builds the per-track
/// note listings: exactly the files that the parser accepts load, and
/// a file that it rejects comes back as `MidlyError`.
pub fn load_midi_tracks(
    bytes: &[u8],
    key_to_keyboard_mapping: &HashMap<u8, String>,
    program_to_string_mapping: &HashMap<u8, String>,
) -> (r: Result<Vec<MidiKeyTrack>, LoadMidiFileError>)
    ensures
        (r is Ok) == (smf_track_events(bytes@) is Some),
        r is Ok ==> ({
            let tracks = smf_track_events(bytes@)->Some_0;
            &&& r->Ok_0@.len() == tracks.len()
            &&& forall|i: int|
                0 <= i < tracks.len() ==> #[trigger] r->Ok_0@[i]@ == spec_midi_key_tracks(
                    tracks,
                    key_to_keyboard_mapping@,
                    program_to_string_mapping@,
                )[i]
        }),
        r is Err ==> r->Err_0 is MidlyError,
{
    match parse_track_events(bytes) {
        Ok(parsed_tracks) => Ok(
            midi_key_tracks_from_events(
                &parsed_tracks,
                key_to_keyboard_mapping,
                program_to_string_mapping,
            ),
        ),
        Err(e) => Err(LoadMidiFileError::from(e)),
    }
}

} // verus!
