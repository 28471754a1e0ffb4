use planck_scribe::{
    chromatic_planck_mapping, default_planck_rows, is_midi_path, load_midi_tracks,
    midi_key_tracks_from_events, program_to_string, u32_decimal, LoadMidiFileError, MidiKeyPair,
    MidiKeyTrack, TrackEvent,
};

#[test]
fn midi_path_filter() {
    assert!(is_midi_path("song.mid"));
    assert!(is_midi_path("song.midi"));
    assert!(is_midi_path(".mid"));
    assert!(!is_midi_path("song.wav"));
    assert!(!is_midi_path("song.mid.bak"));
    assert!(!is_midi_path("mid"));
    assert!(!is_midi_path(""));
}

#[test]
fn decimal_rendering() {
    assert_eq!(u32_decimal(0), "0");
    assert_eq!(u32_decimal(7), "7");
    assert_eq!(u32_decimal(10), "10");
    assert_eq!(u32_decimal(120), "120");
    assert_eq!(u32_decimal(4294967295), "4294967295");
}

#[test]
fn default_rows_shape() {
    let rows = default_planck_rows();
    assert_eq!(rows.len(), 4);
    for row in rows.iter() {
        assert_eq!(row.len(), 12);
    }
    assert_eq!(rows[0][0], "TAB");
    assert_eq!(rows[1][0], "ESC");
    assert_eq!(rows[2][11], "ETR");
    assert_eq!(rows[3][0], "");
    assert_eq!(rows[3][9], "\\/");
    assert_eq!(rows[3][10], "/\\");
    assert_eq!(rows[3][11], "->");
}

#[test]
fn chromatic_mapping_from_esc() {
    // "ESC" is the 13th label in the flat order (index 12), so pitch 60
    // lands on it and the 48 labels cover pitches 48..=95.
    let mapping = chromatic_planck_mapping("ESC", default_planck_rows());
    assert_eq!(mapping.len(), 48);
    assert_eq!(mapping.get(&60).map(String::as_str), Some("ESC"));
    assert_eq!(mapping.get(&61).map(String::as_str), Some("A"));
    assert_eq!(mapping.get(&59).map(String::as_str), Some("BCK"));
    assert_eq!(mapping.get(&48).map(String::as_str), Some("TAB"));
    assert_eq!(mapping.get(&95).map(String::as_str), Some("->"));
    assert_eq!(mapping.get(&47), None);
    assert_eq!(mapping.get(&96), None);
}

#[test]
fn chromatic_mapping_small_layout() {
    let rows: Vec<Vec<String>> = vec![
        vec!["X".to_owned(), "Y".to_owned()],
        vec!["Z".to_owned()],
    ];
    let mapping = chromatic_planck_mapping("Y", rows);
    assert_eq!(mapping.len(), 3);
    assert_eq!(mapping.get(&59).map(String::as_str), Some("X"));
    assert_eq!(mapping.get(&60).map(String::as_str), Some("Y"));
    assert_eq!(mapping.get(&61).map(String::as_str), Some("Z"));
    assert_eq!(mapping.get(&58), None);
    assert_eq!(mapping.get(&62), None);
}

#[test]
fn chromatic_mapping_duplicate_base_uses_first() {
    let rows: Vec<Vec<String>> = vec![
        vec!["A".to_owned(), "B".to_owned(), "A".to_owned()],
    ];
    let mapping = chromatic_planck_mapping("A", rows);
    assert_eq!(mapping.len(), 3);
    assert_eq!(mapping.get(&60).map(String::as_str), Some("A"));
    assert_eq!(mapping.get(&61).map(String::as_str), Some("B"));
    assert_eq!(mapping.get(&62).map(String::as_str), Some("A"));
}

#[test]
fn program_table_contents() {
    let table = program_to_string();
    assert_eq!(table.len(), 129);
    assert_eq!(table.get(&0).map(String::as_str), Some("Piano"));
    assert_eq!(table.get(&7).map(String::as_str), Some("Harpsichord"));
    assert_eq!(
        table.get(&24).map(String::as_str),
        Some("Bandoneon or Tango Accordion")
    );
    assert_eq!(
        table.get(&114).map(String::as_str),
        Some("Agog\u{c3}\u{b4} or cowbell")
    );
    assert_eq!(table.get(&128).map(String::as_str), Some("Gunshot"));
    assert_eq!(table.get(&129), None);
    assert_eq!(table.get(&255), None);
}

#[test]
fn midi_keys_text_lines() {
    let track = MidiKeyTrack {
        name: "Channel 1".to_owned(),
        midi_key_pairs: vec![
            MidiKeyPair {
                midi_key: 60,
                keyboard_key: Some("ESC".to_owned()),
            },
            MidiKeyPair {
                midi_key: 13,
                keyboard_key: None,
            },
        ],
    };
    assert_eq!(track.get_midi_keys_text(), "\n60  (ESC)\n13  (NONE)");
}

#[test]
fn midi_keys_text_empty() {
    let track = MidiKeyTrack::new();
    assert_eq!(track.get_midi_keys_text(), "");
}

#[test]
fn tracks_from_events() {
    let key_map = chromatic_planck_mapping("ESC", default_planck_rows());
    let prog_map = program_to_string();
    let events: Vec<Vec<TrackEvent>> = vec![
        vec![
            TrackEvent::NoteOn { key: 60 },
            TrackEvent::ProgramChange { program: 40 },
            TrackEvent::NoteOn { key: 47 },
        ],
        vec![TrackEvent::NoteOn { key: 48 }],
    ];
    let tracks = midi_key_tracks_from_events(&events, &key_map, &prog_map);
    assert_eq!(tracks.len(), 2);

    assert_eq!(tracks[0].name, "Synth Bass 2");
    assert_eq!(tracks[0].midi_key_pairs.len(), 2);
    assert_eq!(tracks[0].midi_key_pairs[0].midi_key, 60);
    assert_eq!(
        tracks[0].midi_key_pairs[0].keyboard_key.as_deref(),
        Some("ESC")
    );
    assert_eq!(tracks[0].midi_key_pairs[1].midi_key, 47);
    assert_eq!(tracks[0].midi_key_pairs[1].keyboard_key, None);

    // The channel counter moved on once per event of the first track.
    assert_eq!(tracks[1].name, "Channel 4");
    assert_eq!(tracks[1].midi_key_pairs.len(), 1);
    assert_eq!(
        tracks[1].midi_key_pairs[0].keyboard_key.as_deref(),
        Some("TAB")
    );
}

#[test]
fn track_name_falls_back_to_channel() {
    let key_map = chromatic_planck_mapping("ESC", default_planck_rows());
    let prog_map = program_to_string();
    let events: Vec<Vec<TrackEvent>> = vec![vec![
        TrackEvent::Other,
        // Programs above 128 have no instrument name, so the heading stays.
        TrackEvent::ProgramChange { program: 200 },
    ]];
    let tracks = midi_key_tracks_from_events(&events, &key_map, &prog_map);
    assert_eq!(tracks.len(), 1);
    assert_eq!(tracks[0].name, "Channel 1");
    assert_eq!(tracks[0].midi_key_pairs.len(), 0);
}

fn minimal_smf(track_data: &[u8]) -> Vec<u8> {
    let mut bytes: Vec<u8> = Vec::new();
    bytes.extend_from_slice(b"MThd");
    bytes.extend_from_slice(&[0, 0, 0, 6]); // header length
    bytes.extend_from_slice(&[0, 0]); // format 0
    bytes.extend_from_slice(&[0, 1]); // one track
    bytes.extend_from_slice(&[0, 96]); // ticks per beat
    bytes.extend_from_slice(b"MTrk");
    bytes.extend_from_slice(&(track_data.len() as u32).to_be_bytes());
    bytes.extend_from_slice(track_data);
    bytes
}

#[test]
fn load_midi_file_bytes() {
    let key_map = chromatic_planck_mapping("ESC", default_planck_rows());
    let prog_map = program_to_string();
    let track_data: &[u8] = &[
        0x00, 0x90, 0x3C, 0x40, // note on, key 60, velocity 64
        0x00, 0xC0, 0x28, // program change to 40
        0x00, 0x90, 0x2F, 0x00, // note on, key 47, velocity 0
        0x00, 0xFF, 0x2F, 0x00, // end of track
    ];
    let bytes = minimal_smf(track_data);
    let tracks = load_midi_tracks(&bytes, &key_map, &prog_map).unwrap();
    assert_eq!(tracks.len(), 1);
    assert_eq!(tracks[0].name, "Synth Bass 2");
    assert_eq!(tracks[0].midi_key_pairs.len(), 2);
    assert_eq!(tracks[0].midi_key_pairs[0].midi_key, 60);
    assert_eq!(
        tracks[0].midi_key_pairs[0].keyboard_key.as_deref(),
        Some("ESC")
    );
    assert_eq!(tracks[0].midi_key_pairs[1].midi_key, 47);
    assert_eq!(tracks[0].midi_key_pairs[1].keyboard_key, None);
    assert_eq!(
        tracks[0].get_midi_keys_text(),
        "\n60  (ESC)\n47  (NONE)"
    );
}

#[test]
fn load_rejects_malformed_bytes() {
    let key_map = chromatic_planck_mapping("ESC", default_planck_rows());
    let prog_map = program_to_string();
    let err = load_midi_tracks(b"not a midi file", &key_map, &prog_map).unwrap_err();
    assert!(matches!(err, LoadMidiFileError::MidlyError(_)));
}
