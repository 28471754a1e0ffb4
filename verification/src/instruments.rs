//! General MIDI program numbers resolved to instrument names.

use std::collections::HashMap;
use vstd::prelude::*;

verus! {

broadcast use vstd::std_specs::hash::group_hash_axioms;

pub open spec fn spec_program_name_0_15(p: int) -> Seq<char> {
    if p == 0 {
        "Piano"@
    } else if p == 1 {
        "Acoustic Grand Piano or Piano 1"@
    } else if p == 2 {
        "Bright Acoustic Piano or Piano 2"@
    } else if p == 3 {
        "Electric Grand Piano or Piano 3 (usually modeled after Yamaha CP70)"@
    } else if p == 4 {
        "Honky-tonk Piano"@
    } else if p == 5 {
        "Electric Piano 1 (usually a Rhodes piano)"@
    } else if p == 6 {
        "Electric Piano 2 (usually an FM piano patch)"@
    } else if p == 7 {
        "Harpsichord"@
    } else if p == 8 {
        "Clavinet"@
    } else if p == 9 {
        "Celesta"@
    } else if p == 10 {
        "Glockenspiel"@
    } else if p == 11 {
        "Music Box"@
    } else if p == 12 {
        "Vibraphone"@
    } else if p == 13 {
        "Marimba"@
    } else if p == 14 {
        "Xylophone"@
    } else {
        "Tubular Bells"@
    }
}

pub open spec fn spec_program_name_16_31(p: int) -> Seq<char> {
    if p == 16 {
        "Dulcimer or Santoor"@
    } else if p == 17 {
        "Drawbar Organ or Organ 1"@
    } else if p == 18 {
        "Percussive Organ or Organ 2"@
    } else if p == 19 {
        "Rock Organ or Organ 3"@
    } else if p == 20 {
        "Church Organ"@
    } else if p == 21 {
        "Reed Organ"@
    } else if p == 22 {
        "Accordion"@
    } else if p == 23 {
        "Harmonica"@
    } else if p == 24 {
        "Bandoneon or Tango Accordion"@
    } else if p == 25 {
        "Acoustic Guitar (nylon)"@
    } else if p == 26 {
        "Acoustic Guitar (steel)"@
    } else if p == 27 {
        "Electric Guitar (jazz)"@
    } else if p == 28 {
        "Electric Guitar (clean, usually resembling a Fender Stratocaster ran through a Roland Jazz Chorus amp)"@
    } else if p == 29 {
        "Electric Guitar (muted)"@
    } else if p == 30 {
        "Electric Guitar (overdriven)"@
    } else {
        "Electric Guitar (distortion)"@
    }
}

pub open spec fn spec_program_name_32_47(p: int) -> Seq<char> {
    if p == 32 {
        "Electric Guitar (harmonics)"@
    } else if p == 33 {
        "Acoustic Bass"@
    } else if p == 34 {
        "Electric Bass (finger)"@
    } else if p == 35 {
        "Electric Bass (picked)"@
    } else if p == 36 {
        "Electric Bass (fretless)"@
    } else if p == 37 {
        "Slap Bass 1"@
    } else if p == 38 {
        "Slap Bass 2"@
    } else if p == 39 {
        "Synth Bass 1"@
    } else if p == 40 {
        "Synth Bass 2"@
    } else if p == 41 {
        "Violin"@
    } else if p == 42 {
        "Viola"@
    } else if p == 43 {
        "Cello"@
    } else if p == 44 {
        "Contrabass"@
    } else if p == 45 {
        "Tremolo Strings"@
    } else if p == 46 {
        "Pizzicato Strings"@
    } else {
        "Orchestral Harp"@
    }
}

pub open spec fn spec_program_name_48_63(p: int) -> Seq<char> {
    if p == 48 {
        "Timpani"@
    } else if p == 49 {
        "String Ensemble 1"@
    } else if p == 50 {
        "String Ensemble 2"@
    } else if p == 51 {
        "Synth Strings 1"@
    } else if p == 52 {
        "Synth Strings 2"@
    } else if p == 53 {
        "Choir Aahs"@
    } else if p == 54 {
        "Voice Oohs (or Doos)"@
    } else if p == 55 {
        "Synth Voice or Synth Choir"@
    } else if p == 56 {
        "Orchestra Hit"@
    } else if p == 57 {
        "Trumpet"@
    } else if p == 58 {
        "Trombone"@
    } else if p == 59 {
        "Tuba"@
    } else if p == 60 {
        "Muted Trumpet"@
    } else if p == 61 {
        "French Horn"@
    } else if p == 62 {
        "Brass Section"@
    } else {
        "Synth Brass 1"@
    }
}

pub open spec fn spec_program_name_64_79(p: int) -> Seq<char> {
    if p == 64 {
        "Synth Brass 2"@
    } else if p == 65 {
        "Soprano Sax"@
    } else if p == 66 {
        "Alto Sax"@
    } else if p == 67 {
        "Tenor Sax"@
    } else if p == 68 {
        "Baritone Sax"@
    } else if p == 69 {
        "Oboe"@
    } else if p == 70 {
        "English Horn"@
    } else if p == 71 {
        "Bassoon"@
    } else if p == 72 {
        "Clarinet"@
    } else if p == 73 {
        "Piccolo"@
    } else if p == 74 {
        "Flute"@
    } else if p == 75 {
        "Recorder"@
    } else if p == 76 {
        "Pan Flute"@
    } else if p == 77 {
        "Blown bottle"@
    } else if p == 78 {
        "Shakuhachi"@
    } else {
        "Whistle"@
    }
}

pub open spec fn spec_program_name_80_95(p: int) -> Seq<char> {
    if p == 80 {
        "Ocarina"@
    } else if p == 81 {
        "Lead 1 (square, often chorused)"@
    } else if p == 82 {
        "Lead 2 (sawtooth, often chorused)"@
    } else if p == 83 {
        "Lead 3 (triangle, or calliope, usually resembling a woodwind)"@
    } else if p == 84 {
        "Lead 4 (sine, or chiff)"@
    } else if p == 85 {
        "Lead 5 (charang, a guitar-like lead)"@
    } else if p == 86 {
        "Lead 6 (voice)"@
    } else if p == 87 {
        "Lead 7 (fifths)"@
    } else if p == 88 {
        "Lead 8 (bass and lead or solo lead)"@
    } else if p == 89 {
        "Pad 1 (new age, pad stacked with a bell, often derived from \u{22}Fantasia\u{22} patch from Roland D-50)"@
    } else if p == 90 {
        "Pad 2 (warm, a mellower saw pad)"@
    } else if p == 91 {
        "Pad 3 (polysynth or poly, a saw-like percussive pad resembling an early 1980s polyphonic synthesizer)"@
    } else if p == 92 {
        "Pad 4 (choir, similar to \u{22}synth voice\u{22})"@
    } else if p == 93 {
        "Pad 5 (bowed glass or bowed, a sound resembling a glass harmonica)"@
    } else if p == 94 {
        "Pad 6 (metallic, often created from a grand piano sample played with the attack removed)"@
    } else {
        "Pad 7 (halo, choir-like pad)"@
    }
}

pub open spec fn spec_program_name_96_111(p: int) -> Seq<char> {
    if p == 96 {
        "Pad 8 (sweep, pad with a pronounced \u{22}wah\u{22} filter effect)"@
    } else if p == 97 {
        "FX 1 (rain, a bright pluck with echoing pulses)"@
    } else if p == 98 {
        "FX 2 (soundtrack, a bright perfect fifth pad)"@
    } else if p == 99 {
        "FX 3 (crystal, a synthesized bell sound)"@
    } else if p == 100 {
        "FX 4 (atmosphere, usually a classical guitar-like sound)"@
    } else if p == 101 {
        "FX 5 (brightness, a fast-attack stacked pad with choir or bell)"@
    } else if p == 102 {
        "FX 6 (goblins, a slow-attack pad with chirping or murmuring sounds)"@
    } else if p == 103 {
        "FX 7 (echoes or echo drops, similar to \u{22}rain\u{22})"@
    } else if p == 104 {
        "FX 8 (sci-fi or star theme, usually an electric guitar-like pad)"@
    } else if p == 105 {
        "Sitar"@
    } else if p == 106 {
        "Banjo"@
    } else if p == 107 {
        "Shamisen"@
    } else if p == 108 {
        "Koto"@
    } else if p == 109 {
        "Kalimba"@
    } else if p == 110 {
        "Bag pipe"@
    } else {
        "Fiddle"@
    }
}

pub open spec fn spec_program_name_112_127(p: int) -> Seq<char> {
    if p == 112 {
        "Shanai"@
    } else if p == 113 {
        "Tinkle Bell"@
    } else if p == 114 {
        "Agog\u{c3}\u{b4} or cowbell"@
    } else if p == 115 {
        "Steel Drums"@
    } else if p == 116 {
        "Woodblock"@
    } else if p == 117 {
        "Taiko Drum"@
    } else if p == 118 {
        "Melodic Tom or 808 Toms"@
    } else if p == 119 {
        "Synth Drum"@
    } else if p == 120 {
        "Reverse Cymbal"@
    } else if p == 121 {
        "Guitar Fret Noise"@
    } else if p == 122 {
        "Breath Noise"@
    } else if p == 123 {
        "Seashore"@
    } else if p == 124 {
        "Bird Tweet"@
    } else if p == 125 {
        "Telephone Ring"@
    } else if p == 126 {
        "Helicopter"@
    } else {
        "Applause"@
    }
}

/// The instrument name of General MIDI program `p` (meaningful for
/// `0 <= p <= 128`).
pub open spec fn spec_program_name(p: int) -> Seq<char> {
    if p < 16 {
        spec_program_name_0_15(p)
    } else if p < 32 {
        spec_program_name_16_31(p)
    } else if p < 48 {
        spec_program_name_32_47(p)
    } else if p < 64 {
        spec_program_name_48_63(p)
    } else if p < 80 {
        spec_program_name_64_79(p)
    } else if p < 96 {
        spec_program_name_80_95(p)
    } else if p < 112 {
        spec_program_name_96_111(p)
    } else if p < 128 {
        spec_program_name_112_127(p)
    } else {
        "Gunshot"@
    }
}

fn program_name_str(p: u8) -> (s: &'static str)
    requires
        p <= 128,
    ensures
        s@ == spec_program_name(p as int),
{
    match p {
        0 => "Piano",
        1 => "Acoustic Grand Piano or Piano 1",
        2 => "Bright Acoustic Piano or Piano 2",
        3 => "Electric Grand Piano or Piano 3 (usually modeled after Yamaha CP70)",
        4 => "Honky-tonk Piano",
        5 => "Electric Piano 1 (usually a Rhodes piano)",
        6 => "Electric Piano 2 (usually an FM piano patch)",
        7 => "Harpsichord",
        8 => "Clavinet",
        9 => "Celesta",
        10 => "Glockenspiel",
        11 => "Music Box",
        12 => "Vibraphone",
        13 => "Marimba",
        14 => "Xylophone",
        15 => "Tubular Bells",
        16 => "Dulcimer or Santoor",
        17 => "Drawbar Organ or Organ 1",
        18 => "Percussive Organ or Organ 2",
        19 => "Rock Organ or Organ 3",
        20 => "Church Organ",
        21 => "Reed Organ",
        22 => "Accordion",
        23 => "Harmonica",
        24 => "Bandoneon or Tango Accordion",
        25 => "Acoustic Guitar (nylon)",
        26 => "Acoustic Guitar (steel)",
        27 => "Electric Guitar (jazz)",
        28 => "Electric Guitar (clean, usually resembling a Fender Stratocaster ran through a Roland Jazz Chorus amp)",
        29 => "Electric Guitar (muted)",
        30 => "Electric Guitar (overdriven)",
        31 => "Electric Guitar (distortion)",
        32 => "Electric Guitar (harmonics)",
        33 => "Acoustic Bass",
        34 => "Electric Bass (finger)",
        35 => "Electric Bass (picked)",
        36 => "Electric Bass (fretless)",
        37 => "Slap Bass 1",
        38 => "Slap Bass 2",
        39 => "Synth Bass 1",
        40 => "Synth Bass 2",
        41 => "Violin",
        42 => "Viola",
        43 => "Cello",
        44 => "Contrabass",
        45 => "Tremolo Strings",
        46 => "Pizzicato Strings",
        47 => "Orchestral Harp",
        48 => "Timpani",
        49 => "String Ensemble 1",
        50 => "String Ensemble 2",
        51 => "Synth Strings 1",
        52 => "Synth Strings 2",
        53 => "Choir Aahs",
        54 => "Voice Oohs (or Doos)",
        55 => "Synth Voice or Synth Choir",
        56 => "Orchestra Hit",
        57 => "Trumpet",
        58 => "Trombone",
        59 => "Tuba",
        60 => "Muted Trumpet",
        61 => "French Horn",
        62 => "Brass Section",
        63 => "Synth Brass 1",
        64 => "Synth Brass 2",
        65 => "Soprano Sax",
        66 => "Alto Sax",
        67 => "Tenor Sax",
        68 => "Baritone Sax",
        69 => "Oboe",
        70 => "English Horn",
        71 => "Bassoon",
        72 => "Clarinet",
        73 => "Piccolo",
        74 => "Flute",
        75 => "Recorder",
        76 => "Pan Flute",
        77 => "Blown bottle",
        78 => "Shakuhachi",
        79 => "Whistle",
        80 => "Ocarina",
        81 => "Lead 1 (square, often chorused)",
        82 => "Lead 2 (sawtooth, often chorused)",
        83 => "Lead 3 (triangle, or calliope, usually resembling a woodwind)",
        84 => "Lead 4 (sine, or chiff)",
        85 => "Lead 5 (charang, a guitar-like lead)",
        86 => "Lead 6 (voice)",
        87 => "Lead 7 (fifths)",
        88 => "Lead 8 (bass and lead or solo lead)",
        89 => "Pad 1 (new age, pad stacked with a bell, often derived from \u{22}Fantasia\u{22} patch from Roland D-50)",
        90 => "Pad 2 (warm, a mellower saw pad)",
        91 => "Pad 3 (polysynth or poly, a saw-like percussive pad resembling an early 1980s polyphonic synthesizer)",
        92 => "Pad 4 (choir, similar to \u{22}synth voice\u{22})",
        93 => "Pad 5 (bowed glass or bowed, a sound resembling a glass harmonica)",
        94 => "Pad 6 (metallic, often created from a grand piano sample played with the attack removed)",
        95 => "Pad 7 (halo, choir-like pad)",
        96 => "Pad 8 (sweep, pad with a pronounced \u{22}wah\u{22} filter effect)",
        97 => "FX 1 (rain, a bright pluck with echoing pulses)",
        98 => "FX 2 (soundtrack, a bright perfect fifth pad)",
        99 => "FX 3 (crystal, a synthesized bell sound)",
        100 => "FX 4 (atmosphere, usually a classical guitar-like sound)",
        101 => "FX 5 (brightness, a fast-attack stacked pad with choir or bell)",
        102 => "FX 6 (goblins, a slow-attack pad with chirping or murmuring sounds)",
        103 => "FX 7 (echoes or echo drops, similar to \u{22}rain\u{22})",
        104 => "FX 8 (sci-fi or star theme, usually an electric guitar-like pad)",
        105 => "Sitar",
        106 => "Banjo",
        107 => "Shamisen",
        108 => "Koto",
        109 => "Kalimba",
        110 => "Bag pipe",
        111 => "Fiddle",
        112 => "Shanai",
        113 => "Tinkle Bell",
        114 => "Agog\u{c3}\u{b4} or cowbell",
        115 => "Steel Drums",
        116 => "Woodblock",
        117 => "Taiko Drum",
        118 => "Melodic Tom or 808 Toms",
        119 => "Synth Drum",
        120 => "Reverse Cymbal",
        121 => "Guitar Fret Noise",
        122 => "Breath Noise",
        123 => "Seashore",
        124 => "Bird Tweet",
        125 => "Telephone Ring",
        126 => "Helicopter",
        127 => "Applause",
        _ => "Gunshot",
    }
}

/// The table of General MIDI instrument names, keyed by program
/// number: every program from 0 through 128 is present, and nothing
/// else is.
pub fn program_to_string() -> (m: HashMap<u8, String>)
    ensures
        forall|p: u8| m@.contains_key(p) <==> p <= 128,
        forall|p: u8| m@.contains_key(p) ==> m@[p]@ == spec_program_name(p as int),
{
    let mut m: HashMap<u8, String> = HashMap::new();
    let mut p: u8 = 0;
    while p <= 128
        invariant
            p <= 129,
            forall|k: u8| m@.contains_key(k) <==> k < p,
            forall|k: u8| m@.contains_key(k) ==> m@[k]@ == spec_program_name(k as int),
        decreases 129 - p,
    {
        let name = program_name_str(p);
        m.insert(p, name.to_owned());
        p = p + 1;
    }
    m
}

} // verus!
