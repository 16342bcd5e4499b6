//! The synthesizer facade.
//!
//! A [`SynthEngine`] holds the current waveform, filter and vibrato settings,
//! a deterministic seed generator, and the sequencer of active voices.
//! `note_on` builds a voice from the *current* settings and schedules it to
//! sustain until `note_off` releases it; changing a setting afterwards never
//! touches a voice that is already playing.  The engine itself is the audio
//! backend: the host drives [`SynthEngine::mix`] once per output buffer, and
//! [`SynthEngine::backend`] hands out the single driver slot.

use vstd::prelude::*;
use crate::chain::build_voice;
use crate::chain::init_model_spec;
use crate::chain::voice_params_spec;
use crate::chain::Filter;
use crate::chain::Waveform;
use crate::envelope::Fade;
use crate::notes::velocity_gain;
use crate::notes::MidiEvent;
use crate::sequencer::advance_all_spec;
use crate::sequencer::block_sum_spec;
use crate::sequencer::released_voice_spec;
use crate::sequencer::survivors_spec;
use crate::sequencer::Sequencer;
use crate::sequencer::SequencerModel;
use crate::sequencer::VoiceModel;
use crate::sequencer::MAX_CLOCK;
use crate::sequencer::MAX_FADE;
use crate::sequencer::MAX_VOICES;
use crate::sequencer::MAX_VOICE_ID;
use crate::units::UNIT;

verus! {

/// Fade-in of a played note: thirty milliseconds of samples.
pub const NOTE_FADE_IN: u64 = 1323;

/// Fade-out of a released note: two hundred milliseconds of samples.
pub const NOTE_FADE_OUT: u64 = 8820;

/// The polyphonic synthesizer: settings, seed generator, and voice set.
pub struct SynthEngine {
    /// The deterministic per-voice seed generator, seeded at construction.
    pub rnd: funutd::Rnd,
    /// The active-voice scheduler and mixer.
    pub sequencer: Sequencer,
    /// The waveform given to the next voice.
    pub waveform: Waveform,
    /// The filter given to the next voice.
    pub filter: Filter,
    /// The vibrato depth given to the next voice, in 16.16 (default 0.25).
    pub vibrato_amount: i64,
    /// Whether the single audio-driver slot has been handed out.
    pub backend_taken: bool,
}

/// The mathematical image of the engine: everything but the opaque seed
/// generator.
pub struct EngineModel {
    /// The voice set.
    pub sequencer: SequencerModel,
    /// Current waveform setting.
    pub waveform: Waveform,
    /// Current filter setting.
    pub filter: Filter,
    /// Current vibrato depth.
    pub vibrato_amount: i64,
    /// Whether the driver slot is taken.
    pub backend_taken: bool,
}

impl View for SynthEngine {
    type V = EngineModel;

    open spec fn view(&self) -> EngineModel {
        EngineModel {
            sequencer: self.sequencer@,
            waveform: self.waveform,
            filter: self.filter,
            vibrato_amount: self.vibrato_amount,
            backend_taken: self.backend_taken,
        }
    }
}

/// The voice `note_on` schedules: built from the engine settings and a drawn
/// seed, starting now, sustained until an explicit release.
pub open spec fn note_on_voice_spec(
    m: EngineModel,
    midi_note: u8,
    velocity: i64,
    seed: u64,
) -> VoiceModel {
    let params = voice_params_spec(
        m.waveform,
        m.filter,
        m.vibrato_amount,
        midi_note,
        velocity,
        seed,
    );
    VoiceModel {
        params: params,
        chain: init_model_spec(params),
        id: m.sequencer.next_id,
        note: midi_note,
        start_at: m.sequencer.clock,
        fade: Fade::Smooth,
        fade_in: NOTE_FADE_IN,
        fade_out: NOTE_FADE_OUT,
        release_at: Option::None,
        age: 0,
    }
}

/// The voice set after `note_on`: the new voice appended, evicting the
/// oldest voice only when the set was full.
pub open spec fn note_on_voices_spec(
    m: EngineModel,
    midi_note: u8,
    velocity: i64,
    seed: u64,
) -> Seq<VoiceModel> {
    let nv = note_on_voice_spec(m, midi_note, velocity, seed);
    if m.sequencer.voices.len() < MAX_VOICES {
        m.sequencer.voices.push(nv)
    } else {
        m.sequencer.voices.skip(1).push(nv)
    }
}

impl SynthEngine {
    /// What must hold of the engine between calls.
    pub open spec fn wf(&self) -> bool {
        &&& self.sequencer.wf()
        &&& 0 <= self@.vibrato_amount <= UNIT
    }

    /// A fresh engine: no voices, organ waveform, no filter, vibrato 0.25,
    /// and the seed generator deterministically seeded with zero.
    pub fn new() -> (engine: SynthEngine)
        ensures
            engine.wf(),
            engine@.sequencer.voices =~= Seq::<VoiceModel>::empty(),
            engine@.sequencer.clock == 0,
            engine@.sequencer.next_id == 0,
            engine@.waveform is Organ,
            engine@.filter is Bypass,
            engine@.vibrato_amount == 16384,
            !engine@.backend_taken,
    {
        SynthEngine {
            rnd: funutd::Rnd::from_u64(0),
            sequencer: Sequencer::new(),
            waveform: Waveform::Organ,
            filter: Filter::Bypass,
            vibrato_amount: 16384,
            backend_taken: false,
        }
    }

    /// Start a note: build a voice from the current waveform, filter and
    /// vibrato settings with a fresh decorrelation seed, and schedule it to
    /// fade in over thirty milliseconds and sustain until `note_off`.  Notes
    /// above 127 are ignored; the velocity is a 16.16 gain, clamped into
    /// `[0, UNIT]`.  Voices already playing are not touched (beyond the
    /// oldest being evicted when the set is full).
    pub fn note_on(&mut self, midi_note: u8, velocity: i64)
        requires
            old(self).wf(),
            old(self)@.sequencer.next_id < MAX_VOICE_ID,
        ensures
            final(self).wf(),
            final(self)@.waveform == old(self)@.waveform,
            final(self)@.filter == old(self)@.filter,
            final(self)@.vibrato_amount == old(self)@.vibrato_amount,
            final(self)@.backend_taken == old(self)@.backend_taken,
            final(self)@.sequencer.clock == old(self)@.sequencer.clock,
            midi_note > 127 ==> final(self)@ == old(self)@,
            midi_note <= 127 ==> final(self)@.sequencer.next_id == old(self)@.sequencer.next_id
                + 1,
            midi_note <= 127 ==> exists|seed: u64|
                final(self)@.sequencer.voices =~= #[trigger] note_on_voices_spec(
                    old(self)@,
                    midi_note,
                    velocity,
                    seed,
                ),
    {
        if midi_note > 127 {
            return ;
        }
        let seed: u64 = self.rnd.u64();
        let chain = build_voice(
            self.waveform,
            self.filter,
            self.vibrato_amount,
            midi_note,
            velocity,
            seed,
        );
        let _id = self.sequencer.schedule(
            chain,
            0,
            Option::None,
            Fade::Smooth,
            NOTE_FADE_IN,
            NOTE_FADE_OUT,
            midi_note,
        );
        proof {
            assert(final(self)@.sequencer.voices =~= note_on_voices_spec(
                old(self)@,
                midi_note,
                velocity,
                seed,
            ));
        }
    }

    /// Release a note: every sustained voice playing `midi_note` begins its
    /// two-hundred-millisecond fade-out now.  Voices already fading keep
    /// their earlier release point; nothing else changes.
    pub fn note_off(&mut self, midi_note: u8)
        requires
            old(self).wf(),
        ensures
            final(self).wf(),
            final(self)@.waveform == old(self)@.waveform,
            final(self)@.filter == old(self)@.filter,
            final(self)@.vibrato_amount == old(self)@.vibrato_amount,
            final(self)@.backend_taken == old(self)@.backend_taken,
            final(self)@.sequencer.clock == old(self)@.sequencer.clock,
            final(self)@.sequencer.next_id == old(self)@.sequencer.next_id,
            final(self)@.sequencer.voices =~= old(self)@.sequencer.voices.map_values(
                |v: VoiceModel| released_voice_spec(
                    v,
                    midi_note,
                    old(self)@.sequencer.clock,
                ),
            ),
    {
        self.sequencer.release(midi_note);
    }

    /// Apply one keyboard event: a note-on starts the note with the raw MIDI
    /// velocity normalized to a 16.16 gain (127 maps to full scale), a
    /// note-off releases it.  A host delivering a batch of events calls this
    /// once per event, in arrival order.
    pub fn apply_event(&mut self, event: MidiEvent)
        requires
            old(self).wf(),
            old(self)@.sequencer.next_id < MAX_VOICE_ID,
        ensures
            final(self).wf(),
            final(self)@.waveform == old(self)@.waveform,
            final(self)@.filter == old(self)@.filter,
            final(self)@.vibrato_amount == old(self)@.vibrato_amount,
            final(self)@.sequencer.clock == old(self)@.sequencer.clock,
            event matches MidiEvent::NoteOn(note, vel) ==> (note <= 127 ==> exists|seed: u64|
                final(self)@.sequencer.voices =~= #[trigger] note_on_voices_spec(
                    old(self)@,
                    note,
                    crate::notes::velocity_gain_spec(vel as int) as i64,
                    seed,
                )),
            event matches MidiEvent::NoteOff(note, _vel) ==> final(self)@.sequencer.voices
                =~= old(self)@.sequencer.voices.map_values(
                |v: VoiceModel| released_voice_spec(v, note, old(self)@.sequencer.clock),
            ),
    {
        match event {
            MidiEvent::NoteOn(note, vel) => {
                let gain: i64 = velocity_gain(vel);
                self.note_on(note, gain);
                proof {
                    let expected: i64 = crate::notes::velocity_gain_spec(vel as int) as i64;
                    if note <= 127 {
                        let s = choose|s: u64|
                            self@.sequencer.voices =~= note_on_voices_spec(
                                old(self)@,
                                note,
                                gain,
                                s,
                            );
                        assert(voice_params_spec(
                            old(self)@.waveform,
                            old(self)@.filter,
                            old(self)@.vibrato_amount,
                            note,
                            gain,
                            s,
                        ) == voice_params_spec(
                            old(self)@.waveform,
                            old(self)@.filter,
                            old(self)@.vibrato_amount,
                            note,
                            expected,
                            s,
                        ));
                        assert(self@.sequencer.voices =~= note_on_voices_spec(
                            old(self)@,
                            note,
                            expected,
                            s,
                        ));
                    }
                }
            },
            MidiEvent::NoteOff(note, _vel) => {
                self.note_off(note);
            },
        }
    }

    /// Select the waveform for voices built from now on; voices already
    /// playing are not altered.
    pub fn set_waveform(&mut self, waveform: Waveform)
        requires
            old(self).wf(),
        ensures
            final(self).wf(),
            final(self)@.waveform == waveform,
            final(self)@.sequencer == old(self)@.sequencer,
            final(self)@.filter == old(self)@.filter,
            final(self)@.vibrato_amount == old(self)@.vibrato_amount,
            final(self)@.backend_taken == old(self)@.backend_taken,
    {
        self.waveform = waveform;
    }

    /// Select the filter for voices built from now on; voices already
    /// playing are not altered.
    pub fn set_filter(&mut self, filter: Filter)
        requires
            old(self).wf(),
        ensures
            final(self).wf(),
            final(self)@.filter == filter,
            final(self)@.sequencer == old(self)@.sequencer,
            final(self)@.waveform == old(self)@.waveform,
            final(self)@.vibrato_amount == old(self)@.vibrato_amount,
            final(self)@.backend_taken == old(self)@.backend_taken,
    {
        self.filter = filter;
    }

    /// Set the vibrato depth for voices built from now on, clamped into
    /// `[0, UNIT]`; voices already playing are not altered.
    pub fn set_vibrato(&mut self, vibrato_amount: i64)
        requires
            old(self).wf(),
        ensures
            final(self).wf(),
            final(self)@.vibrato_amount == (if vibrato_amount < 0 {
                0
            } else if vibrato_amount > UNIT {
                UNIT as int
            } else {
                vibrato_amount as int
            }),
            final(self)@.sequencer == old(self)@.sequencer,
            final(self)@.waveform == old(self)@.waveform,
            final(self)@.filter == old(self)@.filter,
            final(self)@.backend_taken == old(self)@.backend_taken,
    {
        self.vibrato_amount = if vibrato_amount < 0 {
            0
        } else if vibrato_amount > UNIT {
            UNIT
        } else {
            vibrato_amount
        };
    }

    /// Pull the next `n` samples: the sum of every active voice under its
    /// envelope, exactly as [`block_sum_spec`] says, with finished voices
    /// dropped afterwards.  With no active voices the block is all zeroes.
    pub fn mix(&mut self, n: usize) -> (block: Vec<i64>)
        requires
            old(self).wf(),
            n <= MAX_FADE,
            old(self)@.sequencer.clock + n <= MAX_CLOCK,
        ensures
            final(self).wf(),
            block@.len() == n,
            forall|j: int|
                0 <= j < n ==> block@[j] == block_sum_spec(
                    old(self)@.sequencer.voices,
                    old(self)@.sequencer.clock,
                    j,
                ),
            forall|j: int|
                0 <= j < n ==> -(crate::sequencer::MAX_VOICES as int * crate::units::CHAIN_CLAMP)
                    <= #[trigger] block@[j] <= crate::sequencer::MAX_VOICES as int
                    * crate::units::CHAIN_CLAMP,
            final(self)@.sequencer.voices =~= survivors_spec(
                advance_all_spec(
                    old(self)@.sequencer.voices,
                    old(self)@.sequencer.clock,
                    n as int,
                ),
                (old(self)@.sequencer.clock + n) as u64,
            ),
            final(self)@.sequencer.clock == old(self)@.sequencer.clock + n,
            final(self)@.sequencer.next_id == old(self)@.sequencer.next_id,
            final(self)@.waveform == old(self)@.waveform,
            final(self)@.filter == old(self)@.filter,
            final(self)@.vibrato_amount == old(self)@.vibrato_amount,
            final(self)@.backend_taken == old(self)@.backend_taken,
    {
        self.sequencer.mix(n)
    }

    /// Claim the single audio-driver slot.  The engine itself is the sample
    /// generator — a host drives `mix` — and this returns whether the caller
    /// acquired the exclusive right to do so: the first call succeeds, every
    /// later call is rejected and shares nothing.
    pub fn backend(&mut self) -> (acquired: bool)
        requires
            old(self).wf(),
        ensures
            final(self).wf(),
            acquired == !old(self)@.backend_taken,
            final(self)@.backend_taken,
            final(self)@.sequencer == old(self)@.sequencer,
            final(self)@.waveform == old(self)@.waveform,
            final(self)@.filter == old(self)@.filter,
            final(self)@.vibrato_amount == old(self)@.vibrato_amount,
    {
        let acquired: bool = !self.backend_taken;
        self.backend_taken = true;
        acquired
    }

    /// How many voices are active (sounding or still fading).
    pub fn active_voices(&self) -> (n: usize)
        ensures
            n == self@.sequencer.voices.len(),
    {
        self.sequencer.active_voices()
    }
}

} // verus!
