use piano_synth::notes::midi_to_piano_key;
use piano_synth::notes::note_frequency;
use piano_synth::notes::parse_midi_message;
use piano_synth::notes::velocity_gain;
use piano_synth::notes::MidiEvent;

#[test]
fn test_midi_to_piano_key() {
    assert_eq!(midi_to_piano_key(60), Some("C4".to_string())); // Middle C
    assert_eq!(midi_to_piano_key(69), Some("A4".to_string())); // A440
    assert_eq!(midi_to_piano_key(21), Some("A0".to_string())); // Lowest A on piano
    assert_eq!(midi_to_piano_key(108), Some("C8".to_string())); // Highest C on piano
    assert_eq!(midi_to_piano_key(0), Some("C-1".to_string())); // Lowest MIDI note
    assert_eq!(midi_to_piano_key(127), Some("G9".to_string())); // Highest MIDI note
    assert_eq!(midi_to_piano_key(128), None); // Invalid MIDI note
}

#[test]
fn test_note_frequency_exact_octaves_of_a() {
    // Note 69 is A440 exactly, note 21 is 27.5 Hz exactly, in 16.16.
    assert_eq!(note_frequency(69), 440 * 65536);
    assert_eq!(note_frequency(21), 1802240); // 27.5 * 65536
    assert_eq!(note_frequency(33), 3604480); // 55.0 * 65536
}

#[test]
fn test_note_frequency_matches_equal_temperament() {
    // Every note is within a table-rounding step of 440 * 2^((n-69)/12).
    for note in 0u8..=127 {
        let got = note_frequency(note) as f64 / 65536.0;
        let want = 440.0 * 2f64.powf((note as f64 - 69.0) / 12.0);
        assert!(
            (got - want).abs() < 0.01 * want.max(1.0),
            "note {note}: got {got}, want {want}"
        );
    }
    // The spot checks named by the design: middle C and the lowest piano A.
    assert!((note_frequency(60) as f64 / 65536.0 - 261.626).abs() < 0.01);
    assert!((note_frequency(21) as f64 / 65536.0 - 27.5).abs() < 1e-9);
}

#[test]
fn test_parse_midi_message_note_on_off() {
    assert_eq!(
        parse_midi_message(&[0x90, 60, 100]),
        Some(MidiEvent::NoteOn(60, 100))
    );
    assert_eq!(
        parse_midi_message(&[0x93, 61, 1]),
        Some(MidiEvent::NoteOn(61, 1))
    );
    assert_eq!(
        parse_midi_message(&[0x80, 60, 0]),
        Some(MidiEvent::NoteOff(60, 0))
    );
    assert_eq!(parse_midi_message(&[0xB0, 7, 100]), None); // control change
    assert_eq!(parse_midi_message(&[0x90, 60]), None); // short message
    assert_eq!(parse_midi_message(&[]), None);
}

#[test]
fn test_velocity_gain_normalization() {
    assert_eq!(velocity_gain(0), 0);
    assert_eq!(velocity_gain(127), 65536); // full scale exactly
    assert_eq!(velocity_gain(64), 64 * 65536 / 127);
    assert_eq!(velocity_gain(255), 65536); // out of range clamps
}
