//! MIDI note numbers: pitch, names, and raw-message decoding.
//!
//! A MIDI note number `n` in `[0, 127]` names the equal-tempered pitch
//! `440 * 2^((n - 69) / 12)` Hz.  [`note_frequency`] returns that pitch in
//! 16.16 fixed point: one fixed table entry per pitch class (the frequency in
//! the lowest MIDI octave, rounded to the nearest 16.16 step), doubled once
//! per octave, so notes that are whole octaves from A440 (such as 69 and 21)
//! come out exactly and every other note is within one table-rounding step of
//! the real-valued formula.

use vstd::prelude::*;
use vstd::string::StringExecFns;

verus! {

/// A discrete keyboard event at the engine boundary: a note number and the
/// raw MIDI velocity, both in `[0, 127]` when well-formed.
#[derive(Clone, Copy, Debug, PartialEq, Eq, Structural)]
pub enum MidiEvent {
    NoteOn(u8, u8),
    NoteOff(u8, u8),
}

/// The 16.16 pitch of pitch class `pc` (0 is C) in the lowest MIDI octave.
pub open spec fn pitch_class_freq_spec(pc: int) -> int {
    if pc == 0 {
        535809
    } else if pc == 1 {
        567670
    } else if pc == 2 {
        601425
    } else if pc == 3 {
        637188
    } else if pc == 4 {
        675077
    } else if pc == 5 {
        715219
    } else if pc == 6 {
        757749
    } else if pc == 7 {
        802807
    } else if pc == 8 {
        850544
    } else if pc == 9 {
        901120
    } else if pc == 10 {
        954703
    } else {
        1011473
    }
}

/// `2^oct` for the MIDI octaves 0 through 10.
pub open spec fn octave_mult_spec(oct: int) -> int {
    if oct <= 0 {
        1
    } else if oct == 1 {
        2
    } else if oct == 2 {
        4
    } else if oct == 3 {
        8
    } else if oct == 4 {
        16
    } else if oct == 5 {
        32
    } else if oct == 6 {
        64
    } else if oct == 7 {
        128
    } else if oct == 8 {
        256
    } else if oct == 9 {
        512
    } else {
        1024
    }
}

/// The 16.16 pitch of MIDI note `note`: the pitch-class table entry doubled
/// once per octave.
pub open spec fn note_frequency_spec(note: int) -> int {
    pitch_class_freq_spec(note % 12) * octave_mult_spec(note / 12)
}

/// Raising a note by an octave exactly doubles its pitch.
pub proof fn lemma_octave_doubles(note: int)
    requires
        0 <= note,
        note + 12 <= 127,
    ensures
        note_frequency_spec(note + 12) == 2 * note_frequency_spec(note),
{
    assert((note + 12) % 12 == note % 12) by (nonlinear_arith);
    assert((note + 12) / 12 == note / 12 + 1) by (nonlinear_arith);
    assert(octave_mult_spec(note / 12 + 1) == 2 * octave_mult_spec(note / 12));
    assert(pitch_class_freq_spec(note % 12) * (2 * octave_mult_spec(note / 12)) == 2 * (
    pitch_class_freq_spec(note % 12) * octave_mult_spec(note / 12))) by (nonlinear_arith);
}

/// The concert pitch is exact: note 69 is 440 Hz to the last fixed-point
/// step, and note 21, two octaves down, exactly 27.5 Hz.
pub proof fn lemma_reference_pitch()
    ensures
        note_frequency_spec(69) == 440 * 65536,
        note_frequency_spec(21) == 1802240,
{
}

/// The equal-tempered pitch of a MIDI note, in 16.16 fixed-point Hz.
///
/// Note 69 gives exactly `440 << 16` and note 21 exactly `27.5 * 65536`;
/// every note is within one table-rounding step of `440 * 2^((n - 69) / 12)`.
pub fn note_frequency(note: u8) -> (freq: u64)
    requires
        note <= 127,
    ensures
        freq == note_frequency_spec(note as int),
        0 < freq <= 822074368,
{
    let pc: u8 = note % 12;
    let oct: u8 = note / 12;
    let base: u64 = match pc {
        0 => 535809,
        1 => 567670,
        2 => 601425,
        3 => 637188,
        4 => 675077,
        5 => 715219,
        6 => 757749,
        7 => 802807,
        8 => 850544,
        9 => 901120,
        10 => 954703,
        _ => 1011473,
    };
    let mult: u64 = match oct {
        0 => 1,
        1 => 2,
        2 => 4,
        3 => 8,
        4 => 16,
        5 => 32,
        6 => 64,
        7 => 128,
        8 => 256,
        9 => 512,
        _ => 1024,
    };
    proof {
        if oct == 10 {
            assert(note >= 120 && pc <= 7);
        } else {
            assert(mult <= 512);
            assert(base as int * mult as int <= 1011473 * 512) by (nonlinear_arith)
                requires base <= 1011473 && 0 <= mult <= 512;
        }
        assert(base as int * mult as int >= 1) by (nonlinear_arith)
            requires base >= 1 && mult >= 1;
    }
    base * mult
}

/// The name of pitch class `pc`, as characters.
pub open spec fn pitch_class_name_spec(pc: int) -> Seq<char> {
    if pc == 0 {
        seq!['C']
    } else if pc == 1 {
        seq!['C', '#']
    } else if pc == 2 {
        seq!['D']
    } else if pc == 3 {
        seq!['D', '#']
    } else if pc == 4 {
        seq!['E']
    } else if pc == 5 {
        seq!['F']
    } else if pc == 6 {
        seq!['F', '#']
    } else if pc == 7 {
        seq!['G']
    } else if pc == 8 {
        seq!['G', '#']
    } else if pc == 9 {
        seq!['A']
    } else if pc == 10 {
        seq!['A', '#']
    } else {
        seq!['B']
    }
}

/// The printed octave of a MIDI note: octave index minus one, as characters.
pub open spec fn octave_name_spec(oct: int) -> Seq<char> {
    if oct <= 0 {
        seq!['-', '1']
    } else if oct == 1 {
        seq!['0']
    } else if oct == 2 {
        seq!['1']
    } else if oct == 3 {
        seq!['2']
    } else if oct == 4 {
        seq!['3']
    } else if oct == 5 {
        seq!['4']
    } else if oct == 6 {
        seq!['5']
    } else if oct == 7 {
        seq!['6']
    } else if oct == 8 {
        seq!['7']
    } else if oct == 9 {
        seq!['8']
    } else {
        seq!['9']
    }
}

/// The full label of a MIDI note: pitch-class name then printed octave.
pub open spec fn key_label_spec(note: int) -> Seq<char> {
    pitch_class_name_spec(note % 12) + octave_name_spec(note / 12)
}

/// The piano-key label of a MIDI note: `Some("C4")` for 60, `Some("C-1")`
/// for 0, and `None` for anything above 127.
pub fn midi_to_piano_key(midi_key: u8) -> (r: Option<String>)
    ensures
        midi_key > 127 ==> r is None,
        midi_key <= 127 ==> (r matches Some(s) && s@ == key_label_spec(midi_key as int)),
{
    if midi_key > 127 {
        return None;
    }
    let pc: u8 = midi_key % 12;
    let oct: u8 = midi_key / 12;
    let name: &str = match pc {
        0 => "C",
        1 => "C#",
        2 => "D",
        3 => "D#",
        4 => "E",
        5 => "F",
        6 => "F#",
        7 => "G",
        8 => "G#",
        9 => "A",
        10 => "A#",
        _ => "B",
    };
    let oct_name: &str = match oct {
        0 => "-1",
        1 => "0",
        2 => "1",
        3 => "2",
        4 => "3",
        5 => "4",
        6 => "5",
        7 => "6",
        8 => "7",
        9 => "8",
        _ => "9",
    };
    proof {
        reveal_strlit("C");
        reveal_strlit("C#");
        reveal_strlit("D");
        reveal_strlit("D#");
        reveal_strlit("E");
        reveal_strlit("F");
        reveal_strlit("F#");
        reveal_strlit("G");
        reveal_strlit("G#");
        reveal_strlit("A");
        reveal_strlit("A#");
        reveal_strlit("B");
        reveal_strlit("-1");
        reveal_strlit("0");
        reveal_strlit("1");
        reveal_strlit("2");
        reveal_strlit("3");
        reveal_strlit("4");
        reveal_strlit("5");
        reveal_strlit("6");
        reveal_strlit("7");
        reveal_strlit("8");
        reveal_strlit("9");
        assert(name@ =~= pitch_class_name_spec(midi_key as int % 12));
        assert(oct_name@ =~= octave_name_spec(midi_key as int / 12));
    }
    let label = String::from_str(name).concat(oct_name);
    proof {
        assert(label@ =~= key_label_spec(midi_key as int));
    }
    Some(label)
}

/// What a raw three-byte MIDI channel message means: a status byte whose high
/// nibble is 9 starts a note, one whose high nibble is 8 ends one; anything
/// else (or a short message) is ignored.
pub open spec fn parse_midi_message_spec(bytes: Seq<u8>) -> Option<MidiEvent> {
    if bytes.len() < 3 {
        None
    } else if bytes[0] / 16 == 9 {
        Some(MidiEvent::NoteOn(bytes[1], bytes[2]))
    } else if bytes[0] / 16 == 8 {
        Some(MidiEvent::NoteOff(bytes[1], bytes[2]))
    } else {
        None
    }
}

/// Decode one raw MIDI message into a keyboard event, ignoring everything
/// that is not a note-on or note-off.
pub fn parse_midi_message(bytes: &[u8]) -> (r: Option<MidiEvent>)
    ensures
        r == parse_midi_message_spec(bytes@),
{
    if bytes.len() < 3 {
        return None;
    }
    let status: u8 = bytes[0] / 16;
    if status == 9 {
        Some(MidiEvent::NoteOn(bytes[1], bytes[2]))
    } else if status == 8 {
        Some(MidiEvent::NoteOff(bytes[1], bytes[2]))
    } else {
        None
    }
}

/// A raw MIDI velocity in `[0, 127]` as a 16.16 gain in `[0, UNIT]`:
/// `127` maps to exactly `UNIT`.
pub open spec fn velocity_gain_spec(vel: int) -> int {
    (vel * 65536) / 127
}

/// Normalize a raw MIDI velocity to a 16.16 gain; velocities above 127 are
/// clamped to full scale.
pub fn velocity_gain(vel: u8) -> (g: i64)
    ensures
        vel <= 127 ==> g == velocity_gain_spec(vel as int),
        vel > 127 ==> g == 65536,
        0 <= g <= 65536,
{
    let v: u8 = if vel > 127 {
        127
    } else {
        vel
    };
    let g: u64 = ((v as u64) * 65536) / 127;
    proof {
        assert((v as int * 65536) / 127 <= (127 * 65536) / 127) by {
            vstd::arithmetic::div_mod::lemma_div_is_ordered(
                v as int * 65536,
                (127 * 65536) as int,
                127,
            );
            assert(v as int * 65536 <= 127 * 65536) by (nonlinear_arith)
                requires v <= 127;
        }
    }
    g as i64
}

} // verus!
