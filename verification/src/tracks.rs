//! Note tracks: the reduction of parsed MIDI events to per-track note
//! lists with their key labels and instrument headings.

use std::collections::HashMap;
use vstd::prelude::*;

use crate::decimal::{spec_decimal, u32_decimal};

verus! {

broadcast use vstd::std_specs::hash::group_hash_axioms;

/// One event of a MIDI track, reduced to what the mapping reads: the
/// note-on pitches, the program changes, and everything else.
#[derive(Clone, Copy, PartialEq, Eq, Structural)]
pub enum TrackEvent {
    /// Start playing the note with MIDI pitch `key`.
    NoteOn { key: u8 },
    /// Select instrument `program` for the channel.
    ProgramChange { program: u8 },
    /// Any other event; the mapping ignores it.
    Other,
}

impl View for TrackEvent {
    type V = TrackEvent;

    open spec fn view(&self) -> TrackEvent {
        *self
    }
}

impl DeepView for TrackEvent {
    type V = TrackEvent;

    open spec fn deep_view(&self) -> TrackEvent {
        *self
    }
}

/// One note of a track: the MIDI pitch and the keyboard key it maps
/// to, when the mapping has one.
#[derive(Debug)]
pub struct MidiKeyPair {
    pub midi_key: u8,
    pub keyboard_key: Option<String>,
}

/// The mathematical value of a `MidiKeyPair`.
pub ghost struct MidiKeyPairView {
    pub midi_key: u8,
    pub keyboard_key: Option<Seq<char>>,
}

impl View for MidiKeyPair {
    type V = MidiKeyPairView;

    open spec fn view(&self) -> MidiKeyPairView {
        MidiKeyPairView {
            midi_key: self.midi_key,
            keyboard_key: match self.keyboard_key {
                Some(s) => Some(s@),
                None => None,
            },
        }
    }
}

/// One track of the loaded file: a heading and the notes played on it.
#[derive(Debug)]
pub struct MidiKeyTrack {
    pub name: String,
    pub midi_key_pairs: Vec<MidiKeyPair>,
}

/// The mathematical value of a `MidiKeyTrack`.
pub ghost struct MidiKeyTrackView {
    pub name: Seq<char>,
    pub pairs: Seq<MidiKeyPairView>,
}

impl View for MidiKeyTrack {
    type V = MidiKeyTrackView;

    open spec fn view(&self) -> MidiKeyTrackView {
        MidiKeyTrackView {
            name: self.name@,
            pairs: Seq::new(self.midi_key_pairs@.len(), |i: int| self.midi_key_pairs@[i]@),
        }
    }
}

/// The label that the pitch-to-key mapping gives to `key`.
pub open spec fn spec_key_label(key_map: Map<u8, String>, key: u8) -> Option<Seq<char>> {
    if key_map.contains_key(key) {
        Some(key_map[key]@)
    } else {
        None
    }
}

/// The notes of a track in playing order, each with its key label.
pub open spec fn spec_note_pairs(events: Seq<TrackEvent>, key_map: Map<u8, String>) -> Seq<
    MidiKeyPairView,
>
    decreases events.len(),
{
    if events.len() == 0 {
        Seq::empty()
    } else {
        let rest = spec_note_pairs(events.drop_last(), key_map);
        match events.last() {
            TrackEvent::NoteOn { key } => rest.push(
                MidiKeyPairView { midi_key: key, keyboard_key: spec_key_label(key_map, key) },
            ),
            _ => rest,
        }
    }
}

/// The heading of a track: the instrument name of the last program
/// change that the table resolves, or `Channel <n>` with the counter's
/// value at the start of the track.
pub open spec fn spec_track_name(
    chan: u32,
    events: Seq<TrackEvent>,
    prog_map: Map<u8, String>,
) -> Seq<char>
    decreases events.len(),
{
    if events.len() == 0 {
        "Channel "@ + spec_decimal(chan as nat)
    } else {
        match events.last() {
            TrackEvent::ProgramChange { program } => if prog_map.contains_key(program) {
                prog_map[program]@
            } else {
                spec_track_name(chan, events.drop_last(), prog_map)
            },
            _ => spec_track_name(chan, events.drop_last(), prog_map),
        }
    }
}

/// The channel counter after one more event: it moves on by one and
/// wraps around at the top of `u32`.
pub open spec fn next_channel(chan: u32) -> u32 {
    if chan == u32::MAX {
        0
    } else {
        (chan + 1) as u32
    }
}

/// The channel counter after `n` events.
pub open spec fn channel_after(chan: u32, n: nat) -> u32
    decreases n,
{
    if n == 0 {
        chan
    } else {
        next_channel(channel_after(chan, (n - 1) as nat))
    }
}

/// The number of events in the first `i` tracks.
pub open spec fn events_before(tracks: Seq<Seq<TrackEvent>>, i: int) -> nat
    decreases i,
{
    if i <= 0 {
        0
    } else {
        events_before(tracks, i - 1) + tracks[i - 1].len()
    }
}

/// The channel counter at the start of track `i`: counting starts at 1
/// and moves on by one for every event of every earlier track.
pub open spec fn channel_at(tracks: Seq<Seq<TrackEvent>>, i: int) -> u32 {
    channel_after(1u32, events_before(tracks, i))
}

/// What the loader shows for a parsed file: one entry per track, with
/// its heading and its note list.
pub open spec fn spec_midi_key_tracks(
    tracks: Seq<Seq<TrackEvent>>,
    key_map: Map<u8, String>,
    prog_map: Map<u8, String>,
) -> Seq<MidiKeyTrackView> {
    Seq::new(
        tracks.len(),
        |i: int|
            MidiKeyTrackView {
                name: spec_track_name(channel_at(tracks, i), tracks[i], prog_map),
                pairs: spec_note_pairs(tracks[i], key_map),
            },
    )
}

proof fn lemma_channel_after_add(chan: u32, a: nat, b: nat)
    ensures
        channel_after(chan, a + b) == channel_after(channel_after(chan, a), b),
    decreases b,
{
    if b > 0 {
        lemma_channel_after_add(chan, a, (b - 1) as nat);
        assert(a + b - 1 == a + (b - 1) as nat);
    }
}

/// One line of the note listing.
pub open spec fn spec_pair_text(p: MidiKeyPairView) -> Seq<char> {
    "\n"@ + spec_decimal(p.midi_key as nat) + "  ("@ + (match p.keyboard_key {
        Some(label) => label,
        None => "NONE"@,
    }) + ")"@
}

/// The note listing of a track: the lines of its pairs in order.
pub open spec fn spec_midi_keys_text(pairs: Seq<MidiKeyPairView>) -> Seq<char>
    decreases pairs.len(),
{
    if pairs.len() == 0 {
        Seq::empty()
    } else {
        spec_midi_keys_text(pairs.drop_last()) + spec_pair_text(pairs.last())
    }
}

impl MidiKeyTrack {
    /// An empty track with an empty heading.
    pub fn new() -> (t: Self)
        ensures
            t@.name == Seq::<char>::empty(),
            t@.pairs == Seq::<MidiKeyPairView>::empty(),
    {
        let t = MidiKeyTrack { name: String::new(), midi_key_pairs: Vec::new() };
        proof {
            assert(t@.pairs =~= Seq::<MidiKeyPairView>::empty());
        }
        t
    }

    /// Renders the track's notes, one line per note: the MIDI pitch,
    /// then the key label in parentheses, or `NONE` for a pitch that
    /// the mapping does not cover.
    pub fn get_midi_keys_text(&self) -> (text: String)
        ensures
            text@ == spec_midi_keys_text(self@.pairs),
    {
        let mut midi_keys_text = String::new();
        let mut i: usize = 0;
        while i < self.midi_key_pairs.len()
            invariant
                i <= self.midi_key_pairs@.len(),
                midi_keys_text@ == spec_midi_keys_text(self@.pairs.take(i as int)),
            decreases self.midi_key_pairs@.len() - i,
        {
            let pair = &self.midi_key_pairs[i];
            midi_keys_text.append("\n");
            let num = u32_decimal(pair.midi_key as u32);
            midi_keys_text.append(num.as_str());
            midi_keys_text.append("  (");
            match &pair.keyboard_key {
                Some(key) => {
                    midi_keys_text.append(key.as_str());
                },
                None => {
                    midi_keys_text.append("NONE");
                },
            }
            midi_keys_text.append(")");
            proof {
                assert(self@.pairs.take(i + 1).drop_last() =~= self@.pairs.take(i as int));
                assert(self@.pairs.take(i + 1).last() == self@.pairs[i as int]);
                assert(midi_keys_text@ =~= spec_midi_keys_text(self@.pairs.take(i + 1)));
            }
            i = i + 1;
        }
        proof {
            assert(self@.pairs.take(self@.pairs.len() as int) =~= self@.pairs);
        }
        midi_keys_text
    }
}

fn channel_label(chan: u32) -> (s: String)
    ensures
        s@ == "Channel "@ + spec_decimal(chan as nat),
{
    let mut s = "Channel ".to_owned();
    let num = u32_decimal(chan);
    s.append(num.as_str());
    s
}

/// Builds the per-track note listings of a parsed file. Every track
/// becomes one entry whose notes carry the labels that
/// `key_to_keyboard_mapping` gives their pitches, and whose heading is
/// the name that `program_to_string_mapping` gives the track's last
/// resolvable program change — or `Channel <n>`, numbered by a counter
/// that starts at 1 and moves on by one for every event seen so far.
pub fn midi_key_tracks_from_events(
    tracks: &Vec<Vec<TrackEvent>>,
    key_to_keyboard_mapping: &HashMap<u8, String>,
    program_to_string_mapping: &HashMap<u8, String>,
) -> (r: Vec<MidiKeyTrack>)
    ensures
        r@.len() == tracks@.len(),
        forall|i: int|
            0 <= i < tracks@.len() ==> #[trigger] r@[i]@ == spec_midi_key_tracks(
                tracks.deep_view(),
                key_to_keyboard_mapping@,
                program_to_string_mapping@,
            )[i],
{
    let ghost tt = tracks.deep_view();
    let ghost km = key_to_keyboard_mapping@;
    let ghost pm = program_to_string_mapping@;
    let mut result: Vec<MidiKeyTrack> = Vec::new();
    let mut channel_num: u32 = 1;
    let mut ti: usize = 0;
    while ti < tracks.len()
        invariant
            tt == tracks.deep_view(),
            km == key_to_keyboard_mapping@,
            pm == program_to_string_mapping@,
            ti <= tracks@.len(),
            result@.len() == ti,
            channel_num == channel_at(tt, ti as int),
            forall|i: int|
                0 <= i < ti ==> #[trigger] result@[i]@ == spec_midi_key_tracks(tt, km, pm)[i],
        decreases tracks@.len() - ti,
    {
        let track = &tracks[ti];
        proof {
            assert(tt[ti as int] =~= track@);
        }
        let mut midi_key_track = MidiKeyTrack::new();
        midi_key_track.name = channel_label(channel_num);
        let ghost chan0 = channel_num;
        let mut ei: usize = 0;
        while ei < track.len()
            invariant
                tt == tracks.deep_view(),
                km == key_to_keyboard_mapping@,
                pm == program_to_string_mapping@,
                ti < tracks@.len(),
                track == tracks@[ti as int],
                tt[ti as int] == track@,
                ei <= track@.len(),
                chan0 == channel_at(tt, ti as int),
                channel_num == channel_after(chan0, ei as nat),
                midi_key_track@.pairs == spec_note_pairs(track@.take(ei as int), km),
                midi_key_track@.name == spec_track_name(chan0, track@.take(ei as int), pm),
            decreases track@.len() - ei,
        {
            let ghost pairs_before = midi_key_track@.pairs;
            let ghost name_before = midi_key_track@.name;
            let note = track[ei];
            match note {
                TrackEvent::NoteOn { key } => {
                    let keyboard_key = match key_to_keyboard_mapping.get(&key) {
                        Some(label) => Some(label.clone()),
                        None => None,
                    };
                    let pair = MidiKeyPair { midi_key: key, keyboard_key };
                    midi_key_track.midi_key_pairs.push(pair);
                    proof {
                        assert(midi_key_track@.pairs =~= pairs_before.push(pair@));
                    }
                },
                TrackEvent::ProgramChange { program } => {
                    match program_to_string_mapping.get(&program) {
                        Some(name) => {
                            midi_key_track.name = name.clone();
                            proof {
                                assert(midi_key_track@.pairs =~= pairs_before);
                            }
                        },
                        None => {},
                    }
                },
                TrackEvent::Other => {},
            }
            channel_num = channel_num.wrapping_add(1);
            proof {
                assert(track@.take(ei + 1).drop_last() =~= track@.take(ei as int));
                assert(track@.take(ei + 1).last() == track@[ei as int]);
                assert(midi_key_track@.pairs == spec_note_pairs(track@.take(ei + 1), km));
                assert(midi_key_track@.name == spec_track_name(chan0, track@.take(ei + 1), pm));
            }
            ei = ei + 1;
        }
        proof {
            assert(track@.take(track@.len() as int) =~= track@);
            lemma_channel_after_add(1u32, events_before(tt, ti as int), track@.len());
            assert(events_before(tt, ti + 1) == events_before(tt, ti as int) + tt[ti
                as int].len());
        }
        result.push(midi_key_track);
        ti = ti + 1;
        proof {
            assert forall|i: int| 0 <= i < ti implies #[trigger] result@[i]@
                == spec_midi_key_tracks(tt, km, pm)[i] by {
                if i < ti - 1 {
                    assert(result@[i] == result@.drop_last()[i]);
                }
            }
        }
    }
    result
}

} // verus!
