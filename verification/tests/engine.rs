use piano_synth::chain::build_voice;
use piano_synth::chain::Filter;
use piano_synth::chain::Waveform;
use piano_synth::engine::SynthEngine;
use piano_synth::envelope::Fade;
use piano_synth::notes::MidiEvent;
use piano_synth::sequencer::Sequencer;

const UNIT: i64 = 65536;

#[test]
fn test_mix_with_no_voices_is_silence() {
    let mut engine = SynthEngine::new();
    let block = engine.mix(256);
    assert_eq!(block.len(), 256);
    assert!(block.iter().all(|&s| s == 0));
}

#[test]
fn test_note_on_sounds_after_fade_in() {
    let mut engine = SynthEngine::new();
    engine.set_waveform(Waveform::Saw);
    engine.note_on(69, UNIT);
    // During the fade-in window every sample stays below full scale.
    let ramp = engine.mix(1323);
    assert!(ramp.iter().all(|&s| s.abs() <= UNIT));
    // Once the fade-in has elapsed the tone is audibly there.
    let block = engine.mix(512);
    assert!(block.iter().any(|&s| s != 0));
    let peak = block.iter().map(|&s| s.abs()).max().unwrap();
    assert!(peak > UNIT / 100, "peak {peak} too quiet");
}

#[test]
fn test_fade_in_envelope_rises_monotonically() {
    // For a constant-velocity sustained tone, per-block peaks grow through
    // the fade-in window (blocks span many full cycles of the tone).
    let mut engine = SynthEngine::new();
    engine.set_waveform(Waveform::Square);
    engine.note_on(69, UNIT);
    let mut last_peak: i64 = 0;
    for _ in 0..4 {
        let block = engine.mix(331);
        let peak = block.iter().map(|&s| s.abs()).max().unwrap();
        assert!(peak >= last_peak, "fade-in peak fell: {peak} < {last_peak}");
        last_peak = peak;
    }
    assert!(last_peak > 0);
}

#[test]
fn test_note_off_silences_and_removes_voice() {
    let mut engine = SynthEngine::new();
    engine.set_waveform(Waveform::Saw);
    engine.note_on(60, UNIT);
    assert_eq!(engine.active_voices(), 1);
    // Play 100 ms, then release.
    engine.mix(4410);
    engine.note_off(60);
    assert_eq!(engine.active_voices(), 1); // still fading
    // The fade-out lasts 8820 samples (200 ms); mix past it.
    engine.mix(8820);
    let tail = engine.mix(256);
    assert_eq!(engine.active_voices(), 0); // voice removed
    assert!(tail.iter().all(|&s| s == 0)); // and exactly silent
}

#[test]
fn test_note_off_leaves_other_notes_playing() {
    let mut engine = SynthEngine::new();
    engine.set_waveform(Waveform::Saw);
    engine.note_on(60, UNIT);
    engine.note_on(64, UNIT);
    assert_eq!(engine.active_voices(), 2);
    engine.mix(4410);
    engine.note_off(60);
    engine.mix(9216);
    assert_eq!(engine.active_voices(), 1);
    let block = engine.mix(512);
    assert!(block.iter().any(|&s| s != 0));
}

#[test]
fn test_mixing_is_additive_in_voice_sets() {
    // Mixing voices {A, B} and {C} separately and summing the blocks equals
    // mixing {A, B, C} in one pass, sample for sample.
    let make = |seed: u64, note: u8, w: Waveform| {
        build_voice(w, Filter::Bypass, 16384, note, UNIT, seed)
    };
    let mut s_ab = Sequencer::new();
    s_ab.schedule(make(7, 60, Waveform::Saw), 0, None, Fade::Smooth, 1323, 8820, 60);
    s_ab.schedule(make(9, 64, Waveform::Square), 0, None, Fade::Smooth, 1323, 8820, 64);
    let mut s_c = Sequencer::new();
    s_c.schedule(make(11, 67, Waveform::Organ), 0, None, Fade::Smooth, 1323, 8820, 67);
    let mut s_abc = Sequencer::new();
    s_abc.schedule(make(7, 60, Waveform::Saw), 0, None, Fade::Smooth, 1323, 8820, 60);
    s_abc.schedule(make(9, 64, Waveform::Square), 0, None, Fade::Smooth, 1323, 8820, 64);
    s_abc.schedule(make(11, 67, Waveform::Organ), 0, None, Fade::Smooth, 1323, 8820, 67);
    let b_ab = s_ab.mix(2048);
    let b_c = s_c.mix(2048);
    let b_abc = s_abc.mix(2048);
    for j in 0..2048 {
        assert_eq!(b_abc[j], b_ab[j] + b_c[j], "sample {j}");
    }
    assert!(b_abc.iter().any(|&s| s != 0));
}

#[test]
fn test_setting_switch_does_not_alter_playing_voices() {
    // Two engines play the same saw note; one then switches its waveform and
    // filter. The already-playing voice must be byte-for-byte unaffected.
    let mut steady = SynthEngine::new();
    let mut switched = SynthEngine::new();
    for e in [&mut steady, &mut switched] {
        e.set_waveform(Waveform::Saw);
        e.note_on(60, UNIT);
    }
    switched.set_waveform(Waveform::Square);
    switched.set_filter(Filter::Moog);
    switched.set_vibrato(UNIT / 2);
    let b1 = steady.mix(4096);
    let b2 = switched.mix(4096);
    assert_eq!(b1, b2);
    assert!(b1.iter().any(|&s| s != 0));
}

#[test]
fn test_note_on_and_release_round_trip() {
    // note_on(60, 1.0), note_off(60) after 100 ms, then mix until the
    // envelope settles: the output converges to exact silence within the
    // 200 ms fade-out plus one block.
    let mut engine = SynthEngine::new();
    engine.set_waveform(Waveform::Organ);
    engine.note_on(60, UNIT);
    engine.mix(4410); // 100 ms
    engine.note_off(60);
    engine.mix(8820); // the whole 200 ms fade-out
    let tail = engine.mix(441); // one more block
    assert!(tail.iter().all(|&s| s == 0));
    assert_eq!(engine.active_voices(), 0);
}

#[test]
fn test_every_waveform_sounds() {
    let waveforms = [
        Waveform::Sine,
        Waveform::Saw,
        Waveform::Square,
        Waveform::Triangle,
        Waveform::Organ,
        Waveform::Hammond,
        Waveform::Pulse,
        Waveform::Pluck,
        Waveform::Noise,
    ];
    for w in waveforms {
        let mut engine = SynthEngine::new();
        engine.set_waveform(w);
        engine.note_on(69, UNIT);
        engine.mix(1323);
        let block = engine.mix(2048);
        assert!(
            block.iter().any(|&s| s != 0),
            "waveform {w:?} stayed silent"
        );
    }
}

#[test]
fn test_every_filter_passes_signal() {
    let filters = [
        Filter::Bypass,
        Filter::Moog,
        Filter::Butterworth,
        Filter::Bandpass,
        Filter::Peak,
        Filter::DirtyBiquad,
        Filter::FeedbackBiquad,
    ];
    for f in filters {
        let mut engine = SynthEngine::new();
        engine.set_waveform(Waveform::Saw);
        engine.set_filter(f);
        engine.note_on(57, UNIT);
        engine.mix(1323);
        let block = engine.mix(4096);
        assert!(
            block.iter().any(|&s| s != 0),
            "filter {f:?} silenced the voice"
        );
    }
}

#[test]
fn test_voice_cap_evicts_oldest() {
    let mut engine = SynthEngine::new();
    for i in 0..70u8 {
        engine.note_on(30 + (i % 40), UNIT);
    }
    assert_eq!(engine.active_voices(), 64);
}

#[test]
fn test_out_of_range_inputs_are_tolerated() {
    let mut engine = SynthEngine::new();
    engine.note_on(200, UNIT); // note out of range: ignored
    assert_eq!(engine.active_voices(), 0);
    engine.note_on(60, 10 * UNIT); // velocity above full scale: clamped
    engine.note_on(64, -5); // negative velocity: clamped to silence
    assert_eq!(engine.active_voices(), 2);
    engine.mix(1024);
    engine.set_vibrato(-3); // vibrato clamps too
    assert_eq!(engine.vibrato_amount, 0);
    engine.set_vibrato(10 * UNIT);
    assert_eq!(engine.vibrato_amount, UNIT);
}

#[test]
fn test_backend_slot_is_exclusive() {
    let mut engine = SynthEngine::new();
    assert!(engine.backend());
    assert!(!engine.backend());
    // The engine still mixes for whoever holds the slot.
    let block = engine.mix(64);
    assert_eq!(block.len(), 64);
}

#[test]
fn test_apply_event_drives_notes() {
    let mut engine = SynthEngine::new();
    engine.apply_event(MidiEvent::NoteOn(69, 127));
    assert_eq!(engine.active_voices(), 1);
    engine.mix(4410);
    engine.apply_event(MidiEvent::NoteOff(69, 0));
    engine.mix(9216);
    assert_eq!(engine.active_voices(), 0);
}

#[test]
fn test_scheduled_start_offset_delays_the_voice() {
    let mut seq = Sequencer::new();
    let chain = build_voice(Waveform::Square, Filter::Bypass, 0, 69, UNIT, 5);
    // Start one second from now; the block boundary falls inside the delay.
    seq.schedule(chain, 44100, None, Fade::Smooth, 441, 441, 69);
    let before = seq.mix(22050);
    assert!(before.iter().all(|&s| s == 0));
    let across = seq.mix(44100); // crosses the start inside the block
    assert!(across[..22000].iter().all(|&s| s == 0));
    assert!(across[22050..].iter().any(|&s| s != 0));
}

#[test]
fn test_vibrato_depth_changes_the_waveform() {
    let mut plain = SynthEngine::new();
    let mut warbly = SynthEngine::new();
    for e in [&mut plain, &mut warbly] {
        e.set_waveform(Waveform::Saw);
    }
    plain.set_vibrato(0);
    warbly.set_vibrato(UNIT);
    plain.note_on(69, UNIT);
    warbly.note_on(69, UNIT);
    plain.mix(1323);
    warbly.mix(1323);
    let b1 = plain.mix(8192);
    let b2 = warbly.mix(8192);
    assert_ne!(b1, b2);
}

#[test]
fn test_mix_of_zero_samples_is_empty() {
    let mut engine = SynthEngine::new();
    engine.note_on(60, UNIT);
    let block = engine.mix(0);
    assert!(block.is_empty());
    assert_eq!(engine.active_voices(), 1);
}

#[test]
fn test_linear_fade_schedules_and_completes() {
    // A voice scheduled with a linear fade and a fixed duration fades out on
    // its own, without an explicit release.
    let mut seq = Sequencer::new();
    let chain = build_voice(Waveform::Triangle, Filter::Bypass, 0, 69, UNIT, 42);
    seq.schedule(chain, 0, Some(4410), Fade::Linear, 441, 441, 69);
    let early = seq.mix(2048);
    assert!(early.iter().any(|&s| s != 0));
    seq.mix(4410); // past duration + fade-out
    assert_eq!(seq.active_voices(), 0);
    let tail = seq.mix(256);
    assert!(tail.iter().all(|&s| s == 0));
}

#[test]
fn test_release_hits_all_voices_of_the_same_note() {
    let mut engine = SynthEngine::new();
    engine.set_waveform(Waveform::Saw);
    engine.note_on(60, UNIT);
    engine.note_on(60, UNIT / 2);
    assert_eq!(engine.active_voices(), 2);
    engine.mix(4410);
    engine.note_off(60);
    engine.mix(9216);
    assert_eq!(engine.active_voices(), 0);
}

#[test]
fn test_identical_notes_are_decorrelated() {
    // Two noise voices started together draw different seeds, so their
    // excitation differs: the mix is not just one voice doubled.
    let mut pair = SynthEngine::new();
    pair.set_waveform(Waveform::Noise);
    pair.note_on(69, UNIT);
    pair.note_on(69, UNIT);
    let mut single = SynthEngine::new();
    single.set_waveform(Waveform::Noise);
    single.note_on(69, UNIT);
    let b2 = pair.mix(2048);
    let b1 = single.mix(2048);
    let doubled: Vec<i64> = b1.iter().map(|&s| 2 * s).collect();
    assert_ne!(b2, doubled);
}
