//! The active-voice set and the audio pull path.
//!
//! The sequencer owns every playing voice.  [`Sequencer::schedule`] inserts a
//! built voice with its fade windows and an optional fixed duration;
//! [`Sequencer::release`] starts the fade-out of the sustained voices playing
//! a note; [`Sequencer::mix`] pulls one block of samples, advancing a
//! monotonic sample clock and dropping every voice whose fade-out has
//! completed.
//!
//! The mixed block is pinned down exactly: sample `j` equals
//! [`block_sum_spec`], the plain integer sum of every voice's own output at
//! that step.  Integer addition makes mixing commutative and associative by
//! construction; [`lemma_block_sum_split`] states that mixing two voice sets
//! separately and adding the blocks equals mixing them together.

use vstd::prelude::*;
use crate::chain::chain_after_spec;
use crate::chain::chain_sample_spec;
use crate::chain::chain_step;
use crate::chain::chain_wf;
use crate::chain::params_wf;
use crate::chain::ChainModel;
use crate::chain::SignalChain;
use crate::chain::VoiceParams;
use crate::envelope::env_spec;
use crate::envelope::envelope_at;
use crate::envelope::Fade;
use crate::units::scale_spec;
use crate::units::scale_q;
use crate::units::CHAIN_CLAMP;

verus! {

/// The most voices the sequencer holds at once; scheduling one more evicts
/// the oldest.
pub const MAX_VOICES: usize = 64;

/// The sample clock never runs past this; at 44100 Hz that is millennia.
pub const MAX_CLOCK: u64 = 0x1000_0000_0000_0000;

/// Longest admitted fade window or start offset, in samples.
pub const MAX_FADE: u64 = 0x1_0000_0000;

/// Longest admitted fixed voice duration, in samples.
pub const MAX_DURATION: u64 = 0x1_0000_0000_0000;

/// Voice identifiers stay below this; the machine cannot schedule more.
pub const MAX_VOICE_ID: u64 = 0xFFFF_FFFF_FFFF;

/// One playing (or pending) note: its signal chain and its lifecycle.
pub struct Voice {
    /// The voice's signal chain.
    pub chain: SignalChain,
    /// The identifier handed back by `schedule`.
    pub id: u64,
    /// The MIDI note this voice sounds, the key `release` matches on.
    pub note: u8,
    /// Absolute sample index at which the voice starts sounding.
    pub start_at: u64,
    /// The fade curve of both envelope ramps.
    pub fade: Fade,
    /// Fade-in window, in samples from `start_at`.
    pub fade_in: u64,
    /// Fade-out window, in samples from the release point.
    pub fade_out: u64,
    /// Absolute sample index at which the fade-out begins, once scheduled;
    /// it is set at most once and never moved back to sustain.
    pub release_at: Option<u64>,
    /// Samples this voice has already produced.
    pub age: u64,
}

/// The mathematical image of one voice.
pub struct VoiceModel {
    /// The voice's fixed parameters.
    pub params: VoiceParams,
    /// The chain state.
    pub chain: ChainModel,
    /// The identifier handed back by `schedule`.
    pub id: u64,
    /// The MIDI note this voice sounds.
    pub note: u8,
    /// Absolute start sample.
    pub start_at: u64,
    /// The fade curve.
    pub fade: Fade,
    /// Fade-in window.
    pub fade_in: u64,
    /// Fade-out window.
    pub fade_out: u64,
    /// Absolute release sample, once scheduled.
    pub release_at: Option<u64>,
    /// Samples already produced.
    pub age: u64,
}

impl View for Voice {
    type V = VoiceModel;

    open spec fn view(&self) -> VoiceModel {
        VoiceModel {
            params: self.chain.params,
            chain: self.chain.state@,
            id: self.id,
            note: self.note,
            start_at: self.start_at,
            fade: self.fade,
            fade_in: self.fade_in,
            fade_out: self.fade_out,
            release_at: self.release_at,
            age: self.age,
        }
    }
}

/// The sequencer: the active voices, the sample clock, the next identifier.
pub struct Sequencer {
    /// The active voices, oldest first.
    pub voices: Vec<Voice>,
    /// Samples mixed so far.
    pub clock: u64,
    /// The identifier the next scheduled voice receives.
    pub next_id: u64,
}

/// The mathematical image of the sequencer.
pub struct SequencerModel {
    /// The active voices, oldest first.
    pub voices: Seq<VoiceModel>,
    /// Samples mixed so far.
    pub clock: u64,
    /// The identifier the next scheduled voice receives.
    pub next_id: u64,
}

impl View for Sequencer {
    type V = SequencerModel;

    open spec fn view(&self) -> SequencerModel {
        SequencerModel {
            voices: self.voices@.map_values(|v: Voice| v@),
            clock: self.clock,
            next_id: self.next_id,
        }
    }
}

/// A voice's release point relative to its own start, as the envelope
/// counts it.
pub open spec fn rel_release_spec(v: VoiceModel) -> Option<int> {
    match v.release_at {
        Option::None => Option::None,
        Option::Some(r) => Option::Some(r as int - v.start_at as int),
    }
}

/// What must hold of one voice under the sequencer clock.
pub open spec fn voice_wf(v: VoiceModel, clock: u64) -> bool {
    &&& params_wf(v.params)
    &&& chain_wf(v.params, v.chain)
    &&& v.fade_in <= MAX_FADE
    &&& v.fade_out <= MAX_FADE
    &&& v.start_at <= MAX_CLOCK + MAX_FADE
    &&& (v.release_at matches Option::Some(r) ==> v.start_at <= r <= MAX_CLOCK + MAX_FADE
        + MAX_DURATION)
    &&& (if clock >= v.start_at {
        v.age == clock - v.start_at
    } else {
        v.age == 0
    })
}

impl Sequencer {
    /// What must hold of the whole sequencer between calls.
    pub open spec fn wf(&self) -> bool {
        &&& self@.clock <= MAX_CLOCK
        &&& self@.next_id <= MAX_VOICE_ID
        &&& self@.voices.len() <= MAX_VOICES
        &&& forall|i: int|
            0 <= i < self@.voices.len() ==> voice_wf(#[trigger] self@.voices[i], self@.clock)
        &&& forall|i: int| 0 <= i < self@.voices.len() ==> #[trigger] self@.voices[i].id
            < self@.next_id
        &&& forall|i: int, j: int|
            0 <= i < j < self@.voices.len() ==> self@.voices[i].id < self@.voices[j].id
    }
}

/// The voice's own contribution to sample `j` of a block mixed at `clock`:
/// zero before its start, and afterwards its chain sample under its envelope.
pub open spec fn voice_out_spec(v: VoiceModel, clock: u64, j: int) -> int {
    let t = clock + j;
    if t < v.start_at {
        0
    } else {
        let k = t - v.start_at;
        scale_spec(
            chain_sample_spec(v.params, v.chain, (k - v.age) as nat),
            env_spec(v.fade, v.fade_in as int, rel_release_spec(v), v.fade_out as int, k),
        )
    }
}

/// Sample `j` of the mixed block: the plain sum of every voice's output.
pub open spec fn block_sum_spec(vs: Seq<VoiceModel>, clock: u64, j: int) -> int
    decreases vs.len(),
{
    if vs.len() == 0 {
        0
    } else {
        block_sum_spec(vs.drop_last(), clock, j) + voice_out_spec(vs.last(), clock, j)
    }
}

/// How many chain steps a voice takes during a block of `n` samples.
pub open spec fn steps_in_block_spec(v: VoiceModel, clock: u64, n: int) -> int {
    if clock + n <= v.start_at {
        0
    } else if clock >= v.start_at {
        n
    } else {
        clock + n - v.start_at
    }
}

/// A voice after a block of `n` samples: its chain stepped, its age grown.
pub open spec fn advance_voice_spec(v: VoiceModel, clock: u64, n: int) -> VoiceModel {
    VoiceModel {
        chain: chain_after_spec(v.params, v.chain, steps_in_block_spec(v, clock, n) as nat),
        age: (if clock + n >= v.start_at {
            clock + n - v.start_at
        } else {
            0
        }) as u64,
        ..v
    }
}

/// Every voice of a set after a block of `n` samples.
pub open spec fn advance_all_spec(vs: Seq<VoiceModel>, clock: u64, n: int) -> Seq<VoiceModel> {
    vs.map_values(|v: VoiceModel| advance_voice_spec(v, clock, n))
}

/// Whether a voice's fade-out has fully elapsed at `clock`, so that it no
/// longer contributes and can be dropped.
pub open spec fn voice_done_spec(v: VoiceModel, clock: u64) -> bool {
    match v.release_at {
        Option::Some(r) => clock >= r + v.fade_out,
        Option::None => false,
    }
}

/// The voices that remain once the finished ones are dropped, in order.
pub open spec fn survivors_spec(vs: Seq<VoiceModel>, clock: u64) -> Seq<VoiceModel>
    decreases vs.len(),
{
    if vs.len() == 0 {
        Seq::empty()
    } else {
        survivors_spec(vs.drop_last(), clock) + (if voice_done_spec(vs.last(), clock) {
            Seq::empty()
        } else {
            seq![vs.last()]
        })
    }
}

/// The voice a call to `schedule` inserts.
pub open spec fn scheduled_voice_spec(
    chain: SignalChain,
    start_offset: u64,
    duration: Option<u64>,
    fade: Fade,
    fade_in: u64,
    fade_out: u64,
    note: u8,
    clock: u64,
    id: u64,
) -> VoiceModel {
    VoiceModel {
        params: chain.params,
        chain: chain.state@,
        id: id,
        note: note,
        start_at: (clock + start_offset) as u64,
        fade: fade,
        fade_in: fade_in,
        fade_out: fade_out,
        release_at: match duration {
            Option::None => Option::None,
            Option::Some(d) => Option::Some((clock + start_offset + d) as u64),
        },
        age: 0,
    }
}

/// One voice under `release`: a sustained voice playing `note` begins its
/// fade-out now (or at its start, if it has not started yet); everything
/// else, including voices already fading, is untouched.
pub open spec fn released_voice_spec(v: VoiceModel, note: u8, clock: u64) -> VoiceModel {
    if v.note == note && v.release_at is None {
        VoiceModel {
            release_at: Option::Some(
                if clock > v.start_at {
                    clock
                } else {
                    v.start_at
                },
            ),
            ..v
        }
    } else {
        v
    }
}

/// Mixing a split voice set and summing the two blocks is mixing the whole
/// set: integer summation makes voice order irrelevant.
pub proof fn lemma_block_sum_split(vs1: Seq<VoiceModel>, vs2: Seq<VoiceModel>, clock: u64, j: int)
    ensures
        block_sum_spec(vs1 + vs2, clock, j) == block_sum_spec(vs1, clock, j) + block_sum_spec(
            vs2,
            clock,
            j,
        ),
    decreases vs2.len(),
{
    if vs2.len() == 0 {
        assert(vs1 + vs2 =~= vs1);
    } else {
        lemma_block_sum_split(vs1, vs2.drop_last(), clock, j);
        assert((vs1 + vs2).drop_last() =~= vs1 + vs2.drop_last());
        assert((vs1 + vs2).last() == vs2.last());
    }
}

/// A mixed block over no voices is silence.
pub proof fn lemma_block_sum_empty(clock: u64, j: int)
    ensures
        block_sum_spec(Seq::empty(), clock, j) == 0,
{
}

/// Summing blocks mixed over a split voice set does not depend on which half
/// comes first.
pub proof fn lemma_block_sum_commutes(
    vs1: Seq<VoiceModel>,
    vs2: Seq<VoiceModel>,
    clock: u64,
    j: int,
)
    ensures
        block_sum_spec(vs1 + vs2, clock, j) == block_sum_spec(vs2 + vs1, clock, j),
{
    lemma_block_sum_split(vs1, vs2, clock, j);
    lemma_block_sum_split(vs2, vs1, clock, j);
}

/// After a mix, no finished voice survives, and every voice that is not
/// finished does: the active set holds exactly the live voices, so a voice
/// never persists past the completion of its fade-out.
pub proof fn lemma_survivors_keep_exactly_live(vs: Seq<VoiceModel>, clock: u64)
    ensures
        forall|m: int|
            0 <= m < survivors_spec(vs, clock).len() ==> !voice_done_spec(
                #[trigger] survivors_spec(vs, clock)[m],
                clock,
            ),
        forall|m: int|
            0 <= m < vs.len() && !voice_done_spec(#[trigger] vs[m], clock) ==> survivors_spec(
                vs,
                clock,
            ).contains(vs[m]),
        forall|m: int|
            0 <= m < survivors_spec(vs, clock).len() ==> vs.contains(
                #[trigger] survivors_spec(vs, clock)[m],
            ),
    decreases vs.len(),
{
    if vs.len() > 0 {
        let head = vs.drop_last();
        let a = survivors_spec(head, clock);
        let full = survivors_spec(vs, clock);
        lemma_survivors_keep_exactly_live(head, clock);
        assert forall|m: int| 0 <= m < full.len() implies !voice_done_spec(
            full[m],
            clock,
        ) by {
            if m < a.len() {
                assert(full[m] == a[m]);
            } else {
                assert(full[m] == vs.last());
            }
        }
        assert forall|m: int| 0 <= m < full.len() implies vs.contains(full[m]) by {
            if m < a.len() {
                assert(full[m] == a[m]);
                assert(head.contains(a[m]));
                let w = choose|w: int| 0 <= w < head.len() && head[w] == a[m];
                assert(vs[w] == full[m]);
            } else {
                assert(full[m] == vs.last());
                assert(vs[vs.len() - 1] == vs.last());
            }
        }
        assert forall|m: int|
            0 <= m < vs.len() && !voice_done_spec(vs[m], clock) implies full.contains(
            vs[m],
        ) by {
            if m < vs.len() - 1 {
                assert(head[m] == vs[m]);
                assert(a.contains(vs[m]));
                let w = choose|w: int| 0 <= w < a.len() && a[w] == vs[m];
                assert(full[w] == vs[m]);
            } else {
                assert(vs[m] == vs.last());
                assert(full[a.len() as int] == vs.last());
            }
        }
    }
}

/// Releasing the sustained voices of a note and then mixing past their
/// fade-out removes every one of them: no voice of that note remains in the
/// active set, so repeated note-on / note-off pairs cannot grow it without
/// bound.
pub proof fn lemma_release_then_mix_clears_note(
    vs: Seq<VoiceModel>,
    note: u8,
    clock: u64,
    n: int,
)
    requires
        n >= 0,
        clock + n <= MAX_CLOCK,
        forall|m: int|
            0 <= m < vs.len() && (#[trigger] vs[m]).note == note ==> vs[m].release_at is None,
        forall|m: int|
            0 <= m < vs.len() && (#[trigger] vs[m]).note == note ==> vs[m].start_at <= clock,
        forall|m: int|
            0 <= m < vs.len() && (#[trigger] vs[m]).note == note ==> n >= vs[m].fade_out,
    ensures
        ({
            let after = survivors_spec(
                advance_all_spec(
                    vs.map_values(|v: VoiceModel| released_voice_spec(v, note, clock)),
                    clock,
                    n,
                ),
                (clock + n) as u64,
            );
            forall|m: int| 0 <= m < after.len() ==> (#[trigger] after[m]).note != note
        }),
{
    let rel = vs.map_values(|v: VoiceModel| released_voice_spec(v, note, clock));
    let adv = advance_all_spec(rel, clock, n);
    let nc = (clock + n) as u64;
    let after = survivors_spec(adv, nc);
    lemma_survivors_keep_exactly_live(adv, nc);
    assert forall|m: int| 0 <= m < after.len() implies (#[trigger] after[m]).note != note by {
        if after[m].note == note {
            assert(adv.contains(after[m]));
            let w = choose|w: int| 0 <= w < adv.len() && adv[w] == after[m];
            assert(adv[w] == advance_voice_spec(rel[w], clock, n));
            assert(rel[w] == released_voice_spec(vs[w], note, clock));
            assert(vs[w].note == note);
            assert(rel[w].release_at == Option::Some(clock));
            assert(adv[w].release_at == Option::Some(clock));
            assert(adv[w].fade_out == vs[w].fade_out);
            assert(voice_done_spec(adv[w], nc));
            assert(!voice_done_spec(after[m], nc));
        }
    }
}

/// While a voice is sustained (no release scheduled), its contribution to a
/// block sample never exceeds the envelope ceiling of that step: the chain
/// clamp scaled by the fade-in envelope, which climbs monotonically to one
/// ([`crate::envelope::lemma_env_fade_in_monotone`]).
pub proof fn lemma_fade_in_amplitude_ceiling(v: VoiceModel, clock: u64, j: int)
    requires
        v.release_at is None,
        j >= 0,
        clock + j >= v.start_at,
    ensures
        ({
            let k = clock + j - v.start_at;
            let e = env_spec(v.fade, v.fade_in as int, Option::None, v.fade_out as int, k);
            -scale_spec(CHAIN_CLAMP as int, e) <= voice_out_spec(v, clock, j) <= scale_spec(
                CHAIN_CLAMP as int,
                e,
            )
        }),
{
    let k = clock + j - v.start_at;
    let e = env_spec(v.fade, v.fade_in as int, Option::None, v.fade_out as int, k);
    crate::envelope::lemma_env_bounds(
        v.fade,
        v.fade_in as int,
        Option::None,
        v.fade_out as int,
        k,
    );
    let sample = chain_sample_spec(v.params, v.chain, (k - v.age) as nat);
    crate::chain::lemma_chain_sample_bounded(v.params, v.chain, (k - v.age) as nat);
    crate::units::lemma_scale_product_bound(sample, e, CHAIN_CLAMP as int, e);
    assert(scale_spec(CHAIN_CLAMP as int, e) == (CHAIN_CLAMP as int * e) / 65536);
}

/// A voice whose fade-out has completed contributes exact zeroes from then
/// on: removing it changes no future block.
pub proof fn lemma_done_voice_is_silent(v: VoiceModel, clock: u64, j: int)
    requires
        voice_done_spec(v, clock),
        voice_wf(v, clock),
        j >= 0,
    ensures
        voice_out_spec(v, clock, j) == 0,
{
    let t = clock + j;
    let r = v.release_at->0;
    if t >= v.start_at {
        let k = t - v.start_at;
        crate::envelope::lemma_env_after_release_zero(
            v.fade,
            v.fade_in as int,
            r as int - v.start_at as int,
            v.fade_out as int,
            k,
        );
        crate::units::lemma_scale_zero(
            chain_sample_spec(v.params, v.chain, (k - v.age) as nat),
        );
    }
}

impl Sequencer {
    /// A sequencer with no voices, its clock at zero.
    pub fn new() -> (s: Sequencer)
        ensures
            s.wf(),
            s@.voices =~= Seq::<VoiceModel>::empty(),
            s@.clock == 0,
            s@.next_id == 0,
    {
        Sequencer { voices: Vec::new(), clock: 0, next_id: 0 }
    }

    /// How many voices are active (sounding or still fading).
    pub fn active_voices(&self) -> (n: usize)
        ensures
            n == self@.voices.len(),
    {
        self.voices.len()
    }

    /// Insert a new voice: it starts `start_offset` samples from now, fades
    /// in over `fade_in` samples, and — unless it is released earlier —
    /// begins its `fade_out` after `duration` more samples (`None` sustains
    /// it until `release`).  When the voice set is full the oldest voice is
    /// evicted.  Returns the new voice's identifier.
    pub fn schedule(
        &mut self,
        chain: SignalChain,
        start_offset: u64,
        duration: Option<u64>,
        fade: Fade,
        fade_in: u64,
        fade_out: u64,
        note: u8,
    ) -> (id: u64)
        requires
            old(self).wf(),
            old(self)@.next_id < MAX_VOICE_ID,
            chain.wf(),
            chain.state@ == crate::chain::init_model_spec(chain.params),
            start_offset <= MAX_FADE,
            fade_in <= MAX_FADE,
            fade_out <= MAX_FADE,
            (duration matches Option::Some(d) ==> d <= MAX_DURATION),
        ensures
            final(self).wf(),
            id == old(self)@.next_id,
            final(self)@.next_id == old(self)@.next_id + 1,
            final(self)@.clock == old(self)@.clock,
            ({
                let nv = scheduled_voice_spec(
                    chain,
                    start_offset,
                    duration,
                    fade,
                    fade_in,
                    fade_out,
                    note,
                    old(self)@.clock,
                    old(self)@.next_id,
                );
                if old(self)@.voices.len() < MAX_VOICES {
                    final(self)@.voices =~= old(self)@.voices.push(nv)
                } else {
                    final(self)@.voices =~= old(self)@.voices.skip(1).push(nv)
                }
            }),
    {
        let id: u64 = self.next_id;
        let start_at: u64 = self.clock + start_offset;
        let release_at: Option<u64> = match duration {
            Option::None => Option::None,
            Option::Some(d) => Option::Some(start_at + d),
        };
        let v = Voice {
            chain,
            id,
            note,
            start_at,
            fade,
            fade_in,
            fade_out,
            release_at,
            age: 0,
        };
        if self.voices.len() >= MAX_VOICES {
            let _evicted = self.voices.remove(0);
        }
        self.voices.push(v);
        self.next_id = self.next_id + 1;
        proof {
            let nv = scheduled_voice_spec(
                chain,
                start_offset,
                duration,
                fade,
                fade_in,
                fade_out,
                note,
                old(self)@.clock,
                old(self)@.next_id,
            );
            assert(v@ == nv);
            if old(self)@.voices.len() < MAX_VOICES {
                assert(self@.voices =~= old(self)@.voices.push(nv));
            } else {
                assert(self@.voices =~= old(self)@.voices.skip(1).push(nv));
            }
            assert(voice_wf(nv, self@.clock));
        }
        id
    }

    /// Mix the next `n` samples of every active voice into one block.
    ///
    /// Sample `j` of the block is exactly the integer sum of each voice's
    /// output at clock `clock + j` ([`block_sum_spec`]); silence when no
    /// voice is active.  Afterwards every voice has advanced by the block,
    /// the clock has moved on by `n`, and exactly the voices whose fade-out
    /// completed within the block are gone ([`survivors_spec`]).  Mixing is
    /// deterministic: everything follows from the sequencer state alone.
    #[verifier::rlimit(100)]
    pub fn mix(&mut self, n: usize) -> (block: Vec<i64>)
        requires
            old(self).wf(),
            n <= MAX_FADE,
            old(self)@.clock + n <= MAX_CLOCK,
        ensures
            final(self).wf(),
            block@.len() == n,
            forall|j: int|
                0 <= j < n ==> block@[j] == block_sum_spec(
                    old(self)@.voices,
                    old(self)@.clock,
                    j,
                ),
            forall|j: int|
                0 <= j < n ==> -(MAX_VOICES * CHAIN_CLAMP) <= #[trigger] block@[j] <= MAX_VOICES
                    * CHAIN_CLAMP,
            final(self)@.voices =~= survivors_spec(
                advance_all_spec(old(self)@.voices, old(self)@.clock, n as int),
                (old(self)@.clock + n) as u64,
            ),
            final(self)@.clock == old(self)@.clock + n,
            final(self)@.next_id == old(self)@.next_id,
    {
        let ghost orig: Seq<VoiceModel> = self@.voices;
        let ghost clock0: u64 = self@.clock;
        let ghost next_id0: u64 = self@.next_id;
        let new_clock: u64 = self.clock + n as u64;
        let mut block: Vec<i64> = Vec::new();
        let mut z: usize = 0;
        while z < n
            invariant
                z <= n,
                block@.len() == z,
                forall|jj: int| 0 <= jj < z ==> #[trigger] block@[jj] == 0,
            decreases n - z,
        {
            block.push(0);
            z += 1;
        }
        let mut kept: Vec<Voice> = Vec::new();
        let ghost mut i: int = 0;
        while self.voices.len() > 0
            invariant
                0 <= i <= orig.len(),
                orig.len() <= MAX_VOICES,
                self.voices@.map_values(|v: Voice| v@) =~= orig.skip(i),
                self.clock == clock0,
                self.next_id == next_id0,
                next_id0 <= MAX_VOICE_ID,
                clock0 + n <= MAX_CLOCK,
                new_clock == clock0 + n,
                n <= MAX_FADE,
                forall|m: int| 0 <= m < orig.len() ==> voice_wf(#[trigger] orig[m], clock0),
                forall|m: int| 0 <= m < orig.len() ==> #[trigger] orig[m].id < next_id0,
                forall|m1: int, m2: int|
                    0 <= m1 < m2 < orig.len() ==> orig[m1].id < orig[m2].id,
                block@.len() == n,
                forall|jj: int|
                    0 <= jj < n ==> #[trigger] block@[jj] == block_sum_spec(
                        orig.take(i),
                        clock0,
                        jj,
                    ),
                forall|jj: int|
                    0 <= jj < n ==> -(i * CHAIN_CLAMP) <= #[trigger] block@[jj] <= i
                        * CHAIN_CLAMP,
                kept@.len() <= i,
                kept@.map_values(|v: Voice| v@) =~= survivors_spec(
                    advance_all_spec(orig.take(i), clock0, n as int),
                    new_clock,
                ),
                forall|m: int| 0 <= m < kept@.len() ==> voice_wf(#[trigger] kept@[m]@, new_clock),
                forall|m: int| 0 <= m < kept@.len() ==> #[trigger] kept@[m]@.id < next_id0,
                forall|m1: int, m2: int|
                    0 <= m1 < m2 < kept@.len() ==> kept@[m1]@.id < kept@[m2]@.id,
                forall|m: int, r: int|
                    0 <= m < kept@.len() && 0 <= r < self.voices@.len()
                        ==> #[trigger] kept@[m]@.id < #[trigger] self.voices@[r]@.id,
            decreases self.voices.len(),
        {
            let ghost pre: Seq<Voice> = self.voices@;
            let mut v: Voice = self.voices.remove(0);
            let ghost v0: VoiceModel = v@;
            proof {
                assert(pre.map_values(|vv: Voice| vv@) =~= orig.skip(i));
                assert(pre.map_values(|vv: Voice| vv@).len() == pre.len());
                assert(pre.len() == orig.len() - i);
                assert(pre.map_values(|vv: Voice| vv@)[0] == v0);
                assert(orig.skip(i)[0] == orig[i]);
                assert(v0 == orig[i]);
                assert(voice_wf(v0, clock0));
                assert forall|m: int| 0 <= m < self.voices@.len() implies #[trigger] self.voices@[m]@
                    == orig.skip(i + 1)[m] by {
                    assert(self.voices@[m] == pre[m + 1]);
                    assert(pre.map_values(|vv: Voice| vv@)[m + 1] == pre[m + 1]@);
                    assert(orig.skip(i)[m + 1] == orig[i + 1 + m]);
                    assert(orig.skip(i + 1)[m] == orig[i + 1 + m]);
                }
                assert(self.voices@.map_values(|vv: Voice| vv@) =~= orig.skip(i + 1));
            }
            let ghost block_in: Seq<i64> = block@;
            mix_voice(&mut v, &mut block, self.clock, n);
            proof {
                assert(v@ == advance_voice_spec(v0, clock0, n as int));
            }
            let done: bool = match v.release_at {
                Option::None => false,
                Option::Some(r) => new_clock >= r + v.fade_out,
            };
            proof {
                let adv = advance_voice_spec(v0, clock0, n as int);
                assert(done == voice_done_spec(adv, new_clock));
            }
            if !done {
                kept.push(v);
            }
            proof {
                let adv = advance_voice_spec(v0, clock0, n as int);
                assert(orig.take(i + 1).drop_last() =~= orig.take(i));
                assert(orig.take(i + 1).last() == orig[i]);
                assert(advance_all_spec(orig.take(i + 1), clock0, n as int).drop_last()
                    =~= advance_all_spec(orig.take(i), clock0, n as int));
                assert(advance_all_spec(orig.take(i + 1), clock0, n as int).last() == adv);
                assert(kept@.map_values(|vv: Voice| vv@) =~= survivors_spec(
                    advance_all_spec(orig.take(i + 1), clock0, n as int),
                    new_clock,
                ));
                i = i + 1;
            }
        }
        self.voices = kept;
        self.clock = new_clock;
        proof {
            assert(orig.take(orig.len() as int) =~= orig);
            assert(self@.voices =~= survivors_spec(
                advance_all_spec(orig, clock0, n as int),
                new_clock,
            ));
        }
        block
    }

    /// Begin the fade-out of every sustained voice playing `note`, now.  A
    /// voice already fading keeps its earlier release point: a scheduled
    /// fade-out is never extended back to sustain.
    pub fn release(&mut self, note: u8)
        requires
            old(self).wf(),
        ensures
            final(self).wf(),
            final(self)@.clock == old(self)@.clock,
            final(self)@.next_id == old(self)@.next_id,
            final(self)@.voices =~= old(self)@.voices.map_values(
                |v: VoiceModel| released_voice_spec(v, note, old(self)@.clock),
            ),
    {
        let ghost orig = self@.voices;
        let ghost clock0 = self@.clock;
        let mut kept: Vec<Voice> = Vec::new();
        let mut idx: usize = 0;
        let n_voices: usize = self.voices.len();
        while idx < n_voices
            invariant
                idx <= n_voices,
                n_voices == self.voices.len(),
                self@.voices =~= orig,
                self@.clock == clock0,
                self.wf(),
                kept@.len() == idx,
                forall|m: int|
                    0 <= m < idx ==> #[trigger] kept@[m]@ == released_voice_spec(
                        orig[m],
                        note,
                        clock0,
                    ),
            decreases n_voices - idx,
        {
            let src = &self.voices[idx];
            let new_release: Option<u64> = if src.note == note && src.release_at.is_none() {
                Option::Some(
                    if self.clock > src.start_at {
                        self.clock
                    } else {
                        src.start_at
                    },
                )
            } else {
                src.release_at
            };
            let v = Voice {
                chain: SignalChain {
                    params: src.chain.params,
                    state: clone_chain_state(&src.chain.state),
                },
                id: src.id,
                note: src.note,
                start_at: src.start_at,
                fade: src.fade,
                fade_in: src.fade_in,
                fade_out: src.fade_out,
                release_at: new_release,
                age: src.age,
            };
            kept.push(v);
            idx += 1;
        }
        self.voices = kept;
        proof {
            assert(self@.voices =~= orig.map_values(
                |v: VoiceModel| released_voice_spec(v, note, clock0),
            ));
        }
    }
}

/// Mix one voice's next `n` samples into `block`, advancing the voice.
///
/// Each block entry grows by exactly the voice's own output at that step,
/// which stays within one chain clamp of zero.
#[verifier::rlimit(100)]
fn mix_voice(v: &mut Voice, block: &mut Vec<i64>, clock0: u64, n: usize)
    requires
        voice_wf(old(v)@, clock0),
        clock0 + n <= MAX_CLOCK,
        n <= MAX_FADE,
        old(block)@.len() == n,
        forall|jj: int|
            0 <= jj < n ==> -0x0FFF_FFFF_FFFF_FFFF <= #[trigger] old(block)@[jj]
                <= 0x0FFF_FFFF_FFFF_FFFF,
    ensures
        final(block)@.len() == n,
        forall|jj: int|
            0 <= jj < n ==> #[trigger] final(block)@[jj] == old(block)@[jj] + voice_out_spec(
                old(v)@,
                clock0,
                jj,
            ),
        forall|jj: int|
            0 <= jj < n ==> -CHAIN_CLAMP <= #[trigger] final(block)@[jj] - old(block)@[jj]
                <= CHAIN_CLAMP,
        final(v)@ == advance_voice_spec(old(v)@, clock0, n as int),
        voice_wf(final(v)@, (clock0 + n) as u64),
{
    let ghost v0: VoiceModel = old(v)@;
    let ghost b0: Seq<i64> = old(block)@;
    let new_clock: u64 = clock0 + n as u64;
    let mut j: usize = 0;
    while j < n
        invariant
            j <= n,
            n <= MAX_FADE,
            clock0 + n <= MAX_CLOCK,
            new_clock == clock0 + n,
            voice_wf(v0, clock0),
            v.chain.params == v0.params,
            v.id == v0.id,
            v.note == v0.note,
            v.start_at == v0.start_at,
            v.fade == v0.fade,
            v.fade_in == v0.fade_in,
            v.fade_out == v0.fade_out,
            v.release_at == v0.release_at,
            v.age == v0.age,
            chain_wf(v0.params, v.chain.state@),
            v.chain.state@ == chain_after_spec(
                v0.params,
                v0.chain,
                steps_in_block_spec(v0, clock0, j as int) as nat,
            ),
            block@.len() == n,
            b0.len() == n,
            forall|jj: int|
                0 <= jj < n ==> -0x0FFF_FFFF_FFFF_FFFF <= #[trigger] b0[jj]
                    <= 0x0FFF_FFFF_FFFF_FFFF,
            forall|jj: int|
                0 <= jj < j ==> #[trigger] block@[jj] == b0[jj] + voice_out_spec(
                    v0,
                    clock0,
                    jj,
                ),
            forall|jj: int|
                0 <= jj < j ==> -CHAIN_CLAMP <= #[trigger] block@[jj] - b0[jj] <= CHAIN_CLAMP,
            forall|jj: int| j <= jj < n ==> #[trigger] block@[jj] == b0[jj],
        decreases n - j,
    {
        let t: u64 = clock0 + j as u64;
        if t >= v.start_at {
            let k: u64 = t - v.start_at;
            let y: i64 = chain_step(&v.chain.params, &mut v.chain.state);
            let rel: Option<u64> = match v.release_at {
                Option::None => Option::None,
                Option::Some(r) => Option::Some(r - v.start_at),
            };
            let e: i64 = envelope_at(v.fade, v.fade_in, rel, v.fade_out, k);
            let part: i64 = scale_q(y, e);
            let cur: i64 = block[j];
            block.set(j, cur + part);
            proof {
                assert(steps_in_block_spec(v0, clock0, j as int) == k - v0.age);
                assert(y == chain_sample_spec(v0.params, v0.chain, (k - v0.age) as nat));
                assert(env_spec(
                    v0.fade,
                    v0.fade_in as int,
                    rel_release_spec(v0),
                    v0.fade_out as int,
                    k as int,
                ) == e);
                assert(part == voice_out_spec(v0, clock0, j as int));
                assert(steps_in_block_spec(v0, clock0, j as int + 1) == steps_in_block_spec(
                    v0,
                    clock0,
                    j as int,
                ) + 1);
            }
        } else {
            proof {
                assert(voice_out_spec(v0, clock0, j as int) == 0);
                assert(steps_in_block_spec(v0, clock0, j as int + 1) == steps_in_block_spec(
                    v0,
                    clock0,
                    j as int,
                ));
            }
        }
        j += 1;
    }
    v.age = if new_clock >= v.start_at {
        new_clock - v.start_at
    } else {
        0
    };
}

/// An exact copy of a chain state.
fn clone_chain_state(s: &crate::chain::ChainState) -> (r: crate::chain::ChainState)
    ensures
        r@ == s@,
{
    let mut pluck: Vec<i64> = Vec::new();
    let mut i: usize = 0;
    while i < s.pluck.len()
        invariant
            i <= s.pluck.len(),
            pluck@.len() == i,
            forall|j: int| 0 <= j < i ==> #[trigger] pluck@[j] == s.pluck@[j],
        decreases s.pluck.len() - i,
    {
        pluck.push(s.pluck[i]);
        i += 1;
    }
    proof {
        assert(pluck@ =~= s.pluck@);
    }
    crate::chain::ChainState {
        phase: s.phase,
        vib_a: s.vib_a,
        vib_b: s.vib_b,
        duty: s.duty,
        sweep: s.sweep,
        noise: s.noise,
        n1: s.n1,
        n2: s.n2,
        pluck,
        pos: s.pos,
        f1: s.f1,
        f2: s.f2,
        f3: s.f3,
        f4: s.f4,
        dc_x: s.dc_x,
        dc_y: s.dc_y,
    }
}

} // verus!
