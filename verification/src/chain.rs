//! One voice's signal chain: oscillator, filter, DC blocker.
//!
//! A chain is a deterministic state machine stepped once per output sample.
//! Its whole behaviour is given by two spec functions: [`init_model_spec`]
//! (the state a freshly built voice starts in) and [`chain_step_spec`] (the
//! next state and the emitted sample).  The executable [`ChainState`] mirrors
//! the model exactly, so every sample a voice ever emits is pinned down by
//! the voice's parameters alone.
//!
//! The oscillator runs on a phase accumulator over `[0, PHASE_MOD)`; the
//! pitch is modulated by a vibrato made of two slightly detuned low-frequency
//! sines (6.0 Hz and 6.1 Hz) so the wobble never repeats audibly.  The
//! filter stage sweeps its cutoff or centre with a slow sine or an
//! exponential decay, as selected by [`Filter`].  Every stored register is
//! clamped to `[-CHAIN_CLAMP, CHAIN_CLAMP]`, which keeps all arithmetic far
//! inside `i64` and bounds every emitted sample.

use vstd::prelude::*;
use crate::notes::note_frequency;
use crate::notes::note_frequency_spec;
use crate::units::clamp_q;
use crate::units::clamp_spec;
use crate::units::half_q;
use crate::units::half_spec;
use crate::units::lemma_scale_product_bound;
use crate::units::scale_q;
use crate::units::scale_spec;
use crate::units::sine_q;
use crate::units::sine_spec;
use crate::units::CHAIN_CLAMP;
use crate::units::PHASE_MOD;
use crate::units::UNIT;

verus! {

/// The oscillator family of a voice.
#[derive(Clone, Copy, Debug, PartialEq, Eq, Structural)]
pub enum Waveform {
    Sine,
    Saw,
    Square,
    Triangle,
    Organ,
    Hammond,
    Pulse,
    Pluck,
    Noise,
}

/// The swept filter stage appended after the oscillator.
#[derive(Clone, Copy, Debug, PartialEq, Eq, Structural)]
pub enum Filter {
    Bypass,
    Moog,
    Butterworth,
    Bandpass,
    Peak,
    DirtyBiquad,
    FeedbackBiquad,
}

/// Samples per second of the generated signal.
pub const SAMPLE_RATE: u64 = 44100;

/// Phase step per sample of the 6.0 Hz vibrato sine.
pub const VIB_A_INC: u64 = 584349;

/// Phase step per sample of the 6.1 Hz vibrato sine.
pub const VIB_B_INC: u64 = 594088;

/// Phase step per sample of the 0.1 Hz LFOs (pulse duty, slow filter sweep).
pub const SWEEP_SLOW_INC: u64 = 9739;

/// Phase step per sample of the 0.2 Hz filter sweeps.
pub const SWEEP_FAST_INC: u64 = 19478;

/// Feedback gain of the plucked-string loop, slightly under one.
pub const PLUCK_DAMP: i64 = 65372;

/// Pole of the DC-blocking stage, slightly under one.
pub const DC_POLE: i64 = 65044;

/// Longest plucked-string delay line, in samples.
pub const PLUCK_MAX: u64 = 2048;

/// The immutable description of one voice, fixed when the voice is built.
#[derive(Clone, Copy, Debug, PartialEq, Eq, Structural)]
pub struct VoiceParams {
    /// Oscillator family.
    pub waveform: Waveform,
    /// Filter stage.
    pub filter: Filter,
    /// Pitch in 16.16 fixed-point Hz, before vibrato.
    pub freq: u64,
    /// Oscillator phase step per sample, before vibrato.
    pub phase_inc: u64,
    /// Amplitude in `[0, UNIT]`: the waveform's level times the velocity.
    pub gain: i64,
    /// Vibrato depth in 16.16, at most `VIB_CLAMP`.
    pub vib: i64,
    /// Decorrelation seed for noise and pluck excitation.
    pub seed: u64,
}

/// Largest admitted vibrato depth.
pub const VIB_CLAMP: i64 = 1024;

/// Largest admitted oscillator phase step.
pub const PHASE_INC_MAX: u64 = 0xA000_0000;

/// What must hold of a voice's parameters.
pub open spec fn params_wf(p: VoiceParams) -> bool {
    &&& 0 < p.phase_inc <= PHASE_INC_MAX
    &&& 0 <= p.gain <= UNIT
    &&& 0 <= p.vib <= VIB_CLAMP
    &&& 0 < p.freq <= 822074368
}

/// The mathematical state of one chain: every register, with the pluck
/// delay line as a sequence.
#[verifier::ext_equal]
pub struct ChainModel {
    /// Main oscillator phase.
    pub phase: u64,
    /// 6.0 Hz vibrato phase.
    pub vib_a: u64,
    /// 6.1 Hz vibrato phase.
    pub vib_b: u64,
    /// 0.1 Hz pulse-duty phase.
    pub duty: u64,
    /// Filter sweep state: a phase, or a decaying 16.16 cutoff.
    pub sweep: u64,
    /// Noise generator state.
    pub noise: u64,
    /// Noise colouring filter registers.
    pub n1: i64,
    /// Noise colouring filter registers.
    pub n2: i64,
    /// Plucked-string delay line.
    pub pluck: Seq<i64>,
    /// Read position in the delay line.
    pub pos: int,
    /// Filter registers.
    pub f1: i64,
    /// Filter registers.
    pub f2: i64,
    /// Filter registers.
    pub f3: i64,
    /// Filter registers.
    pub f4: i64,
    /// DC blocker: previous input.
    pub dc_x: i64,
    /// DC blocker: previous output.
    pub dc_y: i64,
}

/// The executable state of one chain.
pub struct ChainState {
    /// Main oscillator phase.
    pub phase: u64,
    /// 6.0 Hz vibrato phase.
    pub vib_a: u64,
    /// 6.1 Hz vibrato phase.
    pub vib_b: u64,
    /// 0.1 Hz pulse-duty phase.
    pub duty: u64,
    /// Filter sweep state: a phase, or a decaying 16.16 cutoff.
    pub sweep: u64,
    /// Noise generator state.
    pub noise: u64,
    /// Noise colouring filter registers.
    pub n1: i64,
    /// Noise colouring filter registers.
    pub n2: i64,
    /// Plucked-string delay line.
    pub pluck: Vec<i64>,
    /// Read position in the delay line.
    pub pos: usize,
    /// Filter registers.
    pub f1: i64,
    /// Filter registers.
    pub f2: i64,
    /// Filter registers.
    pub f3: i64,
    /// Filter registers.
    pub f4: i64,
    /// DC blocker: previous input.
    pub dc_x: i64,
    /// DC blocker: previous output.
    pub dc_y: i64,
}

impl View for ChainState {
    type V = ChainModel;

    open spec fn view(&self) -> ChainModel {
        ChainModel {
            phase: self.phase,
            vib_a: self.vib_a,
            vib_b: self.vib_b,
            duty: self.duty,
            sweep: self.sweep,
            noise: self.noise,
            n1: self.n1,
            n2: self.n2,
            pluck: self.pluck@,
            pos: self.pos as int,
            f1: self.f1,
            f2: self.f2,
            f3: self.f3,
            f4: self.f4,
            dc_x: self.dc_x,
            dc_y: self.dc_y,
        }
    }
}

/// The plucked-string delay length for a pitch: one period, capped.
pub open spec fn pluck_len_spec(p: VoiceParams) -> int {
    let l = (2890137600 as int) / (p.freq as int);
    if l < 2 {
        2
    } else if l > PLUCK_MAX {
        PLUCK_MAX as int
    } else {
        l
    }
}

/// One step of the 64-bit linear congruential noise generator.
pub open spec fn prng_next_spec(s: int) -> int {
    (s * 6364136223846793005 + 1442695040888963407) % 18446744073709551616
}

/// The generator state after `n` steps from `seed`.
pub open spec fn prng_iter_spec(seed: int, n: nat) -> int
    decreases n,
{
    if n == 0 {
        seed
    } else {
        prng_next_spec(prng_iter_spec(seed, (n - 1) as nat))
    }
}

/// A generator state read as a centred sample in `[-32768, 32767]`.
pub open spec fn noise_val_spec(s: int) -> int {
    s / 281474976710656 - 32768
}

/// The initial pluck excitation: one period of seeded noise.
pub open spec fn pluck_init_spec(seed: u64, len: int) -> Seq<i64> {
    Seq::new(len as nat, |i: int| noise_val_spec(prng_iter_spec(seed as int, (i + 1) as nat)) as i64)
}

/// The sweep register a fresh voice starts with.
pub open spec fn init_sweep_spec(f: Filter) -> u64 {
    match f {
        Filter::Butterworth => 1310720000u64,
        Filter::DirtyBiquad => 1310720000u64,
        _ => 0u64,
    }
}

/// The state a freshly built voice starts in.
pub open spec fn init_model_spec(p: VoiceParams) -> ChainModel {
    ChainModel {
        phase: 0,
        vib_a: 0,
        vib_b: 0,
        duty: 0,
        sweep: init_sweep_spec(p.filter),
        noise: p.seed,
        n1: 0,
        n2: 0,
        pluck: if p.waveform is Pluck {
            pluck_init_spec(p.seed, pluck_len_spec(p))
        } else {
            Seq::empty()
        },
        pos: 0,
        f1: 0,
        f2: 0,
        f3: 0,
        f4: 0,
        dc_x: 0,
        dc_y: 0,
    }
}

/// What must hold of a chain state between steps.
pub open spec fn chain_wf(p: VoiceParams, s: ChainModel) -> bool {
    &&& s.phase < PHASE_MOD
    &&& s.vib_a < PHASE_MOD
    &&& s.vib_b < PHASE_MOD
    &&& s.duty < PHASE_MOD
    &&& match p.filter {
        Filter::Butterworth => 26214400 <= s.sweep <= 1310720000,
        Filter::DirtyBiquad => 52428800 <= s.sweep <= 1310720000,
        _ => s.sweep < PHASE_MOD,
    }
    &&& -CHAIN_CLAMP <= s.n1 <= CHAIN_CLAMP
    &&& -CHAIN_CLAMP <= s.n2 <= CHAIN_CLAMP
    &&& if p.waveform is Pluck {
        &&& s.pluck.len() == pluck_len_spec(p)
        &&& 0 <= s.pos < s.pluck.len()
        &&& forall|i: int| 0 <= i < s.pluck.len() ==> -UNIT <= #[trigger] s.pluck[i] <= UNIT
    } else {
        s.pluck.len() == 0 && s.pos == 0
    }
    &&& -CHAIN_CLAMP <= s.f1 <= CHAIN_CLAMP
    &&& -CHAIN_CLAMP <= s.f2 <= CHAIN_CLAMP
    &&& -CHAIN_CLAMP <= s.f3 <= CHAIN_CLAMP
    &&& -CHAIN_CLAMP <= s.f4 <= CHAIN_CLAMP
    &&& -CHAIN_CLAMP <= s.dc_x <= CHAIN_CLAMP
    &&& -CHAIN_CLAMP <= s.dc_y <= CHAIN_CLAMP
}

/// The vibrato-warped phase step for this sample: the nominal step scaled by
/// `1 + vib * (sin_a + sin_b)` in 16.16.
pub open spec fn eff_inc_spec(p: VoiceParams, s: ChainModel) -> int {
    let m2 = sine_spec(s.vib_a as int) + sine_spec(s.vib_b as int);
    let factor = 65536 + scale_spec(m2, p.vib as int);
    ((p.phase_inc as int) * factor) / 65536
}

/// Advance the oscillator phase and the low-frequency-oscillator phases.
pub open spec fn osc_adv_spec(p: VoiceParams, s: ChainModel) -> ChainModel {
    ChainModel {
        phase: ((s.phase as int + eff_inc_spec(p, s)) % (PHASE_MOD as int)) as u64,
        vib_a: ((s.vib_a + VIB_A_INC) % (PHASE_MOD as int)) as u64,
        vib_b: ((s.vib_b + VIB_B_INC) % (PHASE_MOD as int)) as u64,
        duty: ((s.duty + SWEEP_SLOW_INC) % (PHASE_MOD as int)) as u64,
        ..s
    }
}

/// Soft saturation: linear below half scale, attenuated by four above it.
pub open spec fn softclip_spec(x: int) -> int {
    if x > 32768 {
        32768 + (x - 32768) / 4
    } else if x < -32768 {
        -(32768 + (-x - 32768) / 4)
    } else {
        x
    }
}

/// The noise colouring coefficient: a band centred four times above the
/// nominal pitch.
pub open spec fn noise_coef_spec(p: VoiceParams) -> int {
    let c = (8 * (p.freq as int)) / (SAMPLE_RATE as int);
    if c > 65536 {
        65536
    } else {
        c
    }
}

/// The pulse wave at the current phase: high while the phase is below the
/// duty threshold, which a 0.1 Hz sine sweeps over roughly [0.01, 0.99] of
/// the cycle.
pub open spec fn pulse_out_spec(s: ChainModel) -> int {
    let d = 655 + (64226 * (sine_spec(s.duty as int) + 65536)) / 131072;
    if (s.phase as int) / 65536 < d {
        65536
    } else {
        -65536
    }
}

/// One oscillator step: the emitted raw sample (from the current state) and
/// the advanced state.
pub open spec fn osc_step_spec(p: VoiceParams, s: ChainModel) -> (ChainModel, int) {
    match p.waveform {
        Waveform::Sine => (osc_adv_spec(p, s), sine_spec(s.phase as int)),
        Waveform::Saw => (osc_adv_spec(p, s), (s.phase as int) / 32768 - 65536),
        Waveform::Square => (
            osc_adv_spec(p, s),
            if s.phase < 2147483648 {
                (65536 as int)
            } else {
                -(65536 as int)
            },
        ),
        Waveform::Triangle => (
            osc_adv_spec(p, s),
            if s.phase < 2147483648 {
                (s.phase as int) / 16384 - 65536
            } else {
                196608 - (s.phase as int) / 16384
            },
        ),
        Waveform::Organ => (
            osc_adv_spec(p, s),
            half_spec(
                half_spec(
                    2 * sine_spec(s.phase as int) + sine_spec(((2 * s.phase) % (PHASE_MOD as int)) as int)
                        + sine_spec(((4 * s.phase) % (PHASE_MOD as int)) as int),
                ),
            ),
        ),
        Waveform::Hammond => (
            osc_adv_spec(p, s),
            half_spec(
                half_spec(
                    2 * sine_spec(s.phase as int) + sine_spec(((2 * s.phase) % (PHASE_MOD as int)) as int)
                        + sine_spec(((3 * s.phase) % (PHASE_MOD as int)) as int),
                ),
            ),
        ),
        Waveform::Pulse => (osc_adv_spec(p, s), pulse_out_spec(s)),
        Waveform::Pluck => {
            let a = s.pluck[s.pos];
            let nxt = if s.pos + 1 == s.pluck.len() {
                (0 as int)
            } else {
                s.pos + 1
            };
            let b = s.pluck[nxt];
            let v = scale_spec(half_spec(a as int + b as int), PLUCK_DAMP as int);
            (ChainModel { pluck: s.pluck.update(s.pos, v as i64), pos: nxt, ..s }, a as int)
        },
        Waveform::Noise => {
            let x = noise_val_spec(s.noise as int);
            let c = noise_coef_spec(p);
            let n1n = clamp_spec(s.n1 + scale_spec(s.n2 as int, c), CHAIN_CLAMP as int);
            let hp = x - n1n - scale_spec(s.n2 as int, 32768);
            let n2n = clamp_spec(s.n2 + scale_spec(hp, c), CHAIN_CLAMP as int);
            let raw = softclip_spec(scale_spec(n2n, 32768));
            (
                ChainModel {
                    noise: prng_next_spec(s.noise as int) as u64,
                    n1: n1n as i64,
                    n2: n2n as i64,
                    ..s
                },
                raw,
            )
        },
    }
}

/// A state-variable filter step: returns the two updated registers; the
/// first is the lowpass output, the second the bandpass output.
pub open spec fn svf_spec(f1: int, f2: int, x: int, c: int, qc: int) -> (int, int) {
    let f1n = clamp_spec(f1 + scale_spec(f2, c), CHAIN_CLAMP as int);
    let hp = x - f1n - scale_spec(f2, qc);
    let f2n = clamp_spec(f2 + scale_spec(hp, c), CHAIN_CLAMP as int);
    (f1n, f2n)
}

/// A one-pole lowpass step.
pub open spec fn onepole_spec(r: int, x: int, c: int) -> int {
    clamp_spec(r + scale_spec(x - r, c), CHAIN_CLAMP as int)
}

/// A swept cutoff in Hz turned into a filter coefficient in 16.16.
pub open spec fn coef_hz_spec(fc: int) -> int {
    (fc * 131072) / (SAMPLE_RATE as int)
}

/// The cosine-swept Moog cutoff for the current sweep phase, in Hz.
pub open spec fn moog_cutoff_spec(s: ChainModel) -> int {
    let cosv = sine_spec(((s.sweep + 1073741824) % (PHASE_MOD as int)) as int);
    400 + (9600 * (cosv + 65536)) / 131072
}

/// The sine-swept centre for the bandpass family, in Hz.
pub open spec fn band_centre_spec(s: ChainModel) -> int {
    let sv = sine_spec(s.sweep as int);
    200 + (9800 * (sv + 65536)) / 131072
}

/// An exponentially decaying 16.16 cutoff: lose `rate / SAMPLE_RATE` of it
/// per sample, never below `floor`.
pub open spec fn decay_sweep_spec(sweep: int, rate: int, floor: int) -> int {
    let dec = (sweep * rate) / (SAMPLE_RATE as int);
    if sweep - dec < floor {
        floor
    } else {
        sweep - dec
    }
}

/// One filter step: the filtered sample and the advanced state.
pub open spec fn filter_step_spec(p: VoiceParams, s: ChainModel, x: int) -> (ChainModel, int) {
    match p.filter {
        Filter::Bypass => (s, x),
        Filter::Moog => {
            let c = coef_hz_spec(moog_cutoff_spec(s));
            let r = svf_spec(s.f1 as int, s.f2 as int, x, c, 26214);
            (
                ChainModel {
                    f1: r.0 as i64,
                    f2: r.1 as i64,
                    sweep: ((s.sweep + SWEEP_SLOW_INC) % (PHASE_MOD as int)) as u64,
                    ..s
                },
                r.0,
            )
        },
        Filter::Butterworth => {
            let c = (2 * (s.sweep as int)) / (SAMPLE_RATE as int);
            let f1n = onepole_spec(s.f1 as int, x, c);
            let f2n = onepole_spec(s.f2 as int, f1n, c);
            (
                ChainModel {
                    f1: f1n as i64,
                    f2: f2n as i64,
                    sweep: decay_sweep_spec(s.sweep as int, 5, 26214400) as u64,
                    ..s
                },
                f2n,
            )
        },
        Filter::Bandpass => {
            let c = coef_hz_spec(band_centre_spec(s));
            let r = svf_spec(s.f1 as int, s.f2 as int, x, c, 32768);
            (
                ChainModel {
                    f1: r.0 as i64,
                    f2: r.1 as i64,
                    sweep: ((s.sweep + SWEEP_FAST_INC) % (PHASE_MOD as int)) as u64,
                    ..s
                },
                r.1,
            )
        },
        Filter::Peak => {
            let c = coef_hz_spec(band_centre_spec(s));
            let r = svf_spec(s.f1 as int, s.f2 as int, x, c, 32768);
            (
                ChainModel {
                    f1: r.0 as i64,
                    f2: r.1 as i64,
                    sweep: ((s.sweep + SWEEP_FAST_INC) % (PHASE_MOD as int)) as u64,
                    ..s
                },
                clamp_spec(x + r.1, CHAIN_CLAMP as int),
            )
        },
        Filter::DirtyBiquad => {
            let c = (2 * (s.sweep as int)) / (SAMPLE_RATE as int);
            let r = svf_spec(s.f1 as int, s.f2 as int, x, c, 21845);
            let y1 = softclip_spec(r.0);
            let mid = scale_spec(y1, 43646);
            let r2 = svf_spec(s.f3 as int, s.f4 as int, mid, c, 21845);
            (
                ChainModel {
                    f1: r.0 as i64,
                    f2: r.1 as i64,
                    f3: r2.0 as i64,
                    f4: r2.1 as i64,
                    sweep: decay_sweep_spec(s.sweep as int, 6, 52428800) as u64,
                    ..s
                },
                softclip_spec(r2.0),
            )
        },
        Filter::FeedbackBiquad => {
            let c = coef_hz_spec(band_centre_spec(s));
            let xin = 2 * x + scale_spec(s.f3 as int, 32768);
            let r = svf_spec(s.f1 as int, s.f2 as int, xin, c, 13107);
            let y = softclip_spec(r.1);
            (
                ChainModel {
                    f1: r.0 as i64,
                    f2: r.1 as i64,
                    f3: y as i64,
                    sweep: ((s.sweep + SWEEP_FAST_INC) % (PHASE_MOD as int)) as u64,
                    ..s
                },
                y,
            )
        },
    }
}

/// One DC-blocker step: pass differences, leak the running output.
pub open spec fn dc_step_spec(s: ChainModel, x: int) -> (ChainModel, int) {
    let y = clamp_spec(x - s.dc_x + scale_spec(s.dc_y as int, DC_POLE as int), CHAIN_CLAMP as int);
    (ChainModel { dc_x: x as i64, dc_y: y as i64, ..s }, y)
}

/// One full chain step: oscillator, gain, filter, DC blocker.
pub open spec fn chain_step_spec(p: VoiceParams, s: ChainModel) -> (ChainModel, int) {
    let o = osc_step_spec(p, s);
    let xi = scale_spec(o.1, p.gain as int);
    let f = filter_step_spec(p, o.0, xi);
    dc_step_spec(f.0, f.1)
}

/// The chain state after `n` further steps.
pub open spec fn chain_after_spec(p: VoiceParams, s: ChainModel, n: nat) -> ChainModel
    decreases n,
{
    if n == 0 {
        s
    } else {
        chain_step_spec(p, chain_after_spec(p, s, (n - 1) as nat)).0
    }
}

/// The sample emitted on the `n`'th further step (counting from zero).
pub open spec fn chain_sample_spec(p: VoiceParams, s: ChainModel, n: nat) -> int {
    chain_step_spec(p, chain_after_spec(p, s, n)).1
}

/// Every emitted chain sample is within the chain clamp: the DC-blocking
/// stage, the last in the chain, clamps whatever it emits.
pub proof fn lemma_chain_sample_bounded(p: VoiceParams, s: ChainModel, n: nat)
    ensures
        -CHAIN_CLAMP <= chain_sample_spec(p, s, n) <= CHAIN_CLAMP,
{
}

/// One step of the noise generator.
fn prng_step(s: u64) -> (r: u64)
    ensures
        r as int == prng_next_spec(s as int),
{
    proof {
        assert((s as int) * 6364136223846793005 + 1442695040888963407
            < 340282366920938463463374607431768211456) by (nonlinear_arith)
            requires s <= 18446744073709551615;
    }
    let t: u128 = (s as u128) * 6364136223846793005 + 1442695040888963407;
    (t % 18446744073709551616) as u64
}

/// Soft saturation, executable form.
fn softclip_q(x: i64) -> (r: i64)
    requires
        -0x100_0000_0000 <= x <= 0x100_0000_0000,
    ensures
        r == softclip_spec(x as int),
        -0x100_0000_0000 <= r <= 0x100_0000_0000,
{
    if x > 32768 {
        32768 + (((x - 32768) as u64 / 4) as i64)
    } else if x < -32768 {
        -(32768 + ((((-x) - 32768) as u64 / 4) as i64))
    } else {
        x
    }
}

/// Advance the oscillator and vibrato phases.
fn osc_adv(p: &VoiceParams, st: &mut ChainState)
    requires
        params_wf(*p),
        old(st)@.phase < PHASE_MOD,
        old(st)@.vib_a < PHASE_MOD,
        old(st)@.vib_b < PHASE_MOD,
        old(st)@.duty < PHASE_MOD,
    ensures
        final(st)@ == osc_adv_spec(*p, old(st)@),
{
    let sa: i64 = sine_q(st.vib_a);
    let sb: i64 = sine_q(st.vib_b);
    let m2: i64 = sa + sb;
    let delta: i64 = scale_q(m2, p.vib);
    proof {
        lemma_scale_product_bound(m2 as int, p.vib as int, 131072, 1024);
    }
    let factor: u64 = (65536 + delta) as u64;
    proof {
        assert((p.phase_inc as int) * (factor as int) <= 2684354560 * 67584) by (nonlinear_arith)
            requires 0 <= p.phase_inc <= 2684354560 && 0 <= factor <= 67584;
    }
    let eff: u64 = (p.phase_inc * factor) / 65536;
    st.phase = (st.phase + eff) % 4294967296;
    st.vib_a = (st.vib_a + VIB_A_INC) % 4294967296;
    st.vib_b = (st.vib_b + VIB_B_INC) % 4294967296;
    st.duty = (st.duty + SWEEP_SLOW_INC) % 4294967296;
}

/// One oscillator step: emit the raw sample, then advance.
fn osc_step(p: &VoiceParams, st: &mut ChainState) -> (raw: i64)
    requires
        params_wf(*p),
        chain_wf(*p, old(st)@),
    ensures
        final(st)@ == osc_step_spec(*p, old(st)@).0,
        raw == osc_step_spec(*p, old(st)@).1,
        chain_wf(*p, final(st)@),
        -CHAIN_CLAMP <= raw <= CHAIN_CLAMP,
{
    match p.waveform {
        Waveform::Sine => {
            let raw: i64 = sine_q(st.phase);
            osc_adv(p, st);
            raw
        },
        Waveform::Saw => {
            let raw: i64 = (st.phase / 32768) as i64 - 65536;
            osc_adv(p, st);
            raw
        },
        Waveform::Square => {
            let raw: i64 = if st.phase < 2147483648 {
                65536
            } else {
                -65536
            };
            osc_adv(p, st);
            raw
        },
        Waveform::Triangle => {
            let raw: i64 = if st.phase < 2147483648 {
                (st.phase / 16384) as i64 - 65536
            } else {
                196608 - (st.phase / 16384) as i64
            };
            osc_adv(p, st);
            raw
        },
        Waveform::Organ => {
            let s1: i64 = sine_q(st.phase);
            let s2: i64 = sine_q((2 * st.phase) % 4294967296);
            let s4: i64 = sine_q((4 * st.phase) % 4294967296);
            let raw: i64 = half_q(half_q(2 * s1 + s2 + s4));
            osc_adv(p, st);
            raw
        },
        Waveform::Hammond => {
            let s1: i64 = sine_q(st.phase);
            let s2: i64 = sine_q((2 * st.phase) % 4294967296);
            let s3: i64 = sine_q((3 * st.phase) % 4294967296);
            let raw: i64 = half_q(half_q(2 * s1 + s2 + s3));
            osc_adv(p, st);
            raw
        },
        Waveform::Pulse => {
            let sd: i64 = sine_q(st.duty);
            let d: i64 = 655 + ((64226u64 * ((sd + 65536) as u64)) / 131072) as i64;
            let raw: i64 = if st.phase / 65536 < d as u64 {
                65536
            } else {
                -65536
            };
            osc_adv(p, st);
            raw
        },
        Waveform::Pluck => {
            let len: usize = st.pluck.len();
            let a: i64 = st.pluck[st.pos];
            let nxt: usize = if st.pos + 1 == len {
                0
            } else {
                st.pos + 1
            };
            let b: i64 = st.pluck[nxt];
            let v: i64 = scale_q(half_q(a + b), PLUCK_DAMP);
            st.pluck.set(st.pos, v);
            st.pos = nxt;
            proof {
                assert(st@.pluck =~= osc_step_spec(*p, old(st)@).0.pluck);
            }
            a
        },
        Waveform::Noise => {
            let x: i64 = (st.noise / 281474976710656) as i64 - 32768;
            let c8: u64 = (8 * p.freq) / 44100;
            let c: i64 = if c8 > 65536 {
                65536
            } else {
                c8 as i64
            };
            let n1n: i64 = clamp_q(st.n1 + scale_q(st.n2, c), CHAIN_CLAMP);
            let hp: i64 = x - n1n - scale_q(st.n2, 32768);
            let n2n: i64 = clamp_q(st.n2 + scale_q(hp, c), CHAIN_CLAMP);
            let raw: i64 = softclip_q(scale_q(n2n, 32768));
            st.noise = prng_step(st.noise);
            st.n1 = n1n;
            st.n2 = n2n;
            raw
        },
    }
}

/// A state-variable filter step, executable form.
fn svf_q(f1: i64, f2: i64, x: i64, c: i64, qc: i64) -> (r: (i64, i64))
    requires
        -CHAIN_CLAMP <= f1 <= CHAIN_CLAMP,
        -CHAIN_CLAMP <= f2 <= CHAIN_CLAMP,
        -0x10_0000_0000 <= x <= 0x10_0000_0000,
        0 <= c <= UNIT,
        0 <= qc <= UNIT,
    ensures
        r.0 == svf_spec(f1 as int, f2 as int, x as int, c as int, qc as int).0,
        r.1 == svf_spec(f1 as int, f2 as int, x as int, c as int, qc as int).1,
        -CHAIN_CLAMP <= r.0 <= CHAIN_CLAMP,
        -CHAIN_CLAMP <= r.1 <= CHAIN_CLAMP,
{
    let f1n: i64 = clamp_q(f1 + scale_q(f2, c), CHAIN_CLAMP);
    let hp: i64 = x - f1n - scale_q(f2, qc);
    let f2n: i64 = clamp_q(f2 + scale_q(hp, c), CHAIN_CLAMP);
    (f1n, f2n)
}

/// A one-pole lowpass step, executable form.
fn onepole_q(r0: i64, x: i64, c: i64) -> (r: i64)
    requires
        -CHAIN_CLAMP <= r0 <= CHAIN_CLAMP,
        -0x10_0000_0000 <= x <= 0x10_0000_0000,
        0 <= c <= UNIT,
    ensures
        r == onepole_spec(r0 as int, x as int, c as int),
        -CHAIN_CLAMP <= r <= CHAIN_CLAMP,
{
    clamp_q(r0 + scale_q(x - r0, c), CHAIN_CLAMP)
}

/// One `Moog` filter step: a resonant lowpass whose cutoff sweeps
/// [400, 10000] Hz under a 0.1 Hz cosine, with fixed resonance 0.6 (the
/// damping coefficient 26214 is `(1 - 0.6) * UNIT`).
fn filter_moog(p: &VoiceParams, st: &mut ChainState, x: i64) -> (y: i64)
    requires
        params_wf(*p),
        chain_wf(*p, old(st)@),
        p.filter is Moog,
        -CHAIN_CLAMP <= x <= CHAIN_CLAMP,
    ensures
        final(st)@ == filter_step_spec(*p, old(st)@, x as int).0,
        y == filter_step_spec(*p, old(st)@, x as int).1,
        chain_wf(*p, final(st)@),
        -CHAIN_CLAMP <= y <= CHAIN_CLAMP,
{
    let cosv: i64 = sine_q((st.sweep + 1073741824) % 4294967296);
    let fc: u64 = 400 + (9600 * ((cosv + 65536) as u64)) / 131072;
    proof {
        crate::units::lemma_div_le_bound((fc * 131072) as int, 29730, 44100);
    }
    let c: i64 = ((fc * 131072) / 44100) as i64;
    let r = svf_q(st.f1, st.f2, x, c, 26214);
    st.f1 = r.0;
    st.f2 = r.1;
    st.sweep = (st.sweep + SWEEP_SLOW_INC) % 4294967296;
    r.0
}

/// One `Butterworth` filter step: two cascaded smooth lowpass poles whose
/// cutoff decays exponentially from 20000 Hz toward a 400 Hz floor with a
/// time constant of a fifth of a second (rate 5 per sample clock).
fn filter_butterworth(p: &VoiceParams, st: &mut ChainState, x: i64) -> (y: i64)
    requires
        params_wf(*p),
        chain_wf(*p, old(st)@),
        p.filter is Butterworth,
        -CHAIN_CLAMP <= x <= CHAIN_CLAMP,
    ensures
        final(st)@ == filter_step_spec(*p, old(st)@, x as int).0,
        y == filter_step_spec(*p, old(st)@, x as int).1,
        chain_wf(*p, final(st)@),
        -CHAIN_CLAMP <= y <= CHAIN_CLAMP,
{
    proof {
        crate::units::lemma_div_le_bound((2 * st.sweep) as int, 59444, 44100);
    }
    let c: i64 = ((2 * st.sweep) / 44100) as i64;
    let f1n: i64 = onepole_q(st.f1, x, c);
    let f2n: i64 = onepole_q(st.f2, f1n, c);
    let dec: u64 = (st.sweep * 5) / 44100;
    proof {
        crate::units::lemma_div_le_bound((st.sweep * 5) as int, 148608, 44100);
    }
    let swn: u64 = if st.sweep < 26214400 + dec {
        26214400
    } else {
        st.sweep - dec
    };
    st.f1 = f1n;
    st.f2 = f2n;
    st.sweep = swn;
    f2n
}

/// One `Bandpass` filter step: the bandpass tap of the state-variable
/// filter, centre swept over [200, 10000] Hz by a 0.2 Hz sine, Q = 2 (the
/// damping coefficient 32768 is `UNIT / 2`).
fn filter_bandpass(p: &VoiceParams, st: &mut ChainState, x: i64) -> (y: i64)
    requires
        params_wf(*p),
        chain_wf(*p, old(st)@),
        p.filter is Bandpass,
        -CHAIN_CLAMP <= x <= CHAIN_CLAMP,
    ensures
        final(st)@ == filter_step_spec(*p, old(st)@, x as int).0,
        y == filter_step_spec(*p, old(st)@, x as int).1,
        chain_wf(*p, final(st)@),
        -CHAIN_CLAMP <= y <= CHAIN_CLAMP,
{
    let sv: i64 = sine_q(st.sweep);
    let fc: u64 = 200 + (9800 * ((sv + 65536) as u64)) / 131072;
    proof {
        crate::units::lemma_div_le_bound((fc * 131072) as int, 29730, 44100);
    }
    let c: i64 = ((fc * 131072) / 44100) as i64;
    let r = svf_q(st.f1, st.f2, x, c, 32768);
    st.f1 = r.0;
    st.f2 = r.1;
    st.sweep = (st.sweep + SWEEP_FAST_INC) % 4294967296;
    r.1
}

/// One `Peak` filter step: the input plus the swept bandpass tap, centre
/// over [200, 10000] Hz at 0.2 Hz, Q = 2.
fn filter_peak(p: &VoiceParams, st: &mut ChainState, x: i64) -> (y: i64)
    requires
        params_wf(*p),
        chain_wf(*p, old(st)@),
        p.filter is Peak,
        -CHAIN_CLAMP <= x <= CHAIN_CLAMP,
    ensures
        final(st)@ == filter_step_spec(*p, old(st)@, x as int).0,
        y == filter_step_spec(*p, old(st)@, x as int).1,
        chain_wf(*p, final(st)@),
        -CHAIN_CLAMP <= y <= CHAIN_CLAMP,
{
    let sv: i64 = sine_q(st.sweep);
    let fc: u64 = 200 + (9800 * ((sv + 65536) as u64)) / 131072;
    proof {
        crate::units::lemma_div_le_bound((fc * 131072) as int, 29730, 44100);
    }
    let c: i64 = ((fc * 131072) / 44100) as i64;
    let r = svf_q(st.f1, st.f2, x, c, 32768);
    st.f1 = r.0;
    st.f2 = r.1;
    st.sweep = (st.sweep + SWEEP_FAST_INC) % 4294967296;
    clamp_q(x + r.1, CHAIN_CLAMP)
}

/// One `DirtyBiquad` filter step: a saturating lowpass taken twice, with
/// the middle channel attenuated by 0.666 (43646 in 16.16) between passes;
/// the cutoff decays toward an 800 Hz floor with a time constant of a sixth
/// of a second.
fn filter_dirty(p: &VoiceParams, st: &mut ChainState, x: i64) -> (y: i64)
    requires
        params_wf(*p),
        chain_wf(*p, old(st)@),
        p.filter is DirtyBiquad,
        -CHAIN_CLAMP <= x <= CHAIN_CLAMP,
    ensures
        final(st)@ == filter_step_spec(*p, old(st)@, x as int).0,
        y == filter_step_spec(*p, old(st)@, x as int).1,
        chain_wf(*p, final(st)@),
        -CHAIN_CLAMP <= y <= CHAIN_CLAMP,
{
    proof {
        crate::units::lemma_div_le_bound((2 * st.sweep) as int, 59444, 44100);
    }
    let c: i64 = ((2 * st.sweep) / 44100) as i64;
    let r = svf_q(st.f1, st.f2, x, c, 21845);
    let y1: i64 = softclip_q(r.0);
    let mid: i64 = scale_q(y1, 43646);
    let r2 = svf_q(st.f3, st.f4, mid, c, 21845);
    let dec: u64 = (st.sweep * 6) / 44100;
    proof {
        crate::units::lemma_div_le_bound((st.sweep * 6) as int, 178330, 44100);
    }
    let swn: u64 = if st.sweep < 52428800 + dec {
        52428800
    } else {
        st.sweep - dec
    };
    st.f1 = r.0;
    st.f2 = r.1;
    st.f3 = r2.0;
    st.f4 = r2.1;
    st.sweep = swn;
    softclip_q(r2.0)
}

/// One `FeedbackBiquad` filter step: the input doubled in gain into a
/// resonant bandpass (centre swept over [200, 10000] Hz at 0.2 Hz, Q = 5),
/// with the soft-clipped output fed back into the next input.
fn filter_feedback(p: &VoiceParams, st: &mut ChainState, x: i64) -> (y: i64)
    requires
        params_wf(*p),
        chain_wf(*p, old(st)@),
        p.filter is FeedbackBiquad,
        -CHAIN_CLAMP <= x <= CHAIN_CLAMP,
    ensures
        final(st)@ == filter_step_spec(*p, old(st)@, x as int).0,
        y == filter_step_spec(*p, old(st)@, x as int).1,
        chain_wf(*p, final(st)@),
        -CHAIN_CLAMP <= y <= CHAIN_CLAMP,
{
    let sv: i64 = sine_q(st.sweep);
    let fc: u64 = 200 + (9800 * ((sv + 65536) as u64)) / 131072;
    proof {
        crate::units::lemma_div_le_bound((fc * 131072) as int, 29730, 44100);
    }
    let c: i64 = ((fc * 131072) / 44100) as i64;
    let xin: i64 = 2 * x + scale_q(st.f3, 32768);
    let r = svf_q(st.f1, st.f2, xin, c, 13107);
    let y: i64 = softclip_q(r.1);
    st.f1 = r.0;
    st.f2 = r.1;
    st.f3 = y;
    st.sweep = (st.sweep + SWEEP_FAST_INC) % 4294967296;
    y
}

/// One filter step: filter the sample, advance the sweep.
fn filter_step(p: &VoiceParams, st: &mut ChainState, x: i64) -> (y: i64)
    requires
        params_wf(*p),
        chain_wf(*p, old(st)@),
        -CHAIN_CLAMP <= x <= CHAIN_CLAMP,
    ensures
        final(st)@ == filter_step_spec(*p, old(st)@, x as int).0,
        y == filter_step_spec(*p, old(st)@, x as int).1,
        chain_wf(*p, final(st)@),
        -CHAIN_CLAMP <= y <= CHAIN_CLAMP,
{
    match p.filter {
        Filter::Bypass => x,
        Filter::Moog => filter_moog(p, st, x),
        Filter::Butterworth => filter_butterworth(p, st, x),
        Filter::Bandpass => filter_bandpass(p, st, x),
        Filter::Peak => filter_peak(p, st, x),
        Filter::DirtyBiquad => filter_dirty(p, st, x),
        Filter::FeedbackBiquad => filter_feedback(p, st, x),
    }
}

/// One DC-blocker step.
fn dc_step(st: &mut ChainState, x: i64) -> (y: i64)
    requires
        -CHAIN_CLAMP <= x <= CHAIN_CLAMP,
        -CHAIN_CLAMP <= old(st)@.dc_x <= CHAIN_CLAMP,
        -CHAIN_CLAMP <= old(st)@.dc_y <= CHAIN_CLAMP,
    ensures
        final(st)@ == dc_step_spec(old(st)@, x as int).0,
        y == dc_step_spec(old(st)@, x as int).1,
        -CHAIN_CLAMP <= y <= CHAIN_CLAMP,
{
    let y: i64 = clamp_q(x - st.dc_x + scale_q(st.dc_y, DC_POLE), CHAIN_CLAMP);
    st.dc_x = x;
    st.dc_y = y;
    y
}

/// One full chain step: the next emitted sample, with the state advanced
/// exactly as [`chain_step_spec`] says.
pub fn chain_step(p: &VoiceParams, st: &mut ChainState) -> (y: i64)
    requires
        params_wf(*p),
        chain_wf(*p, old(st)@),
    ensures
        final(st)@ == chain_step_spec(*p, old(st)@).0,
        y == chain_step_spec(*p, old(st)@).1,
        chain_wf(*p, final(st)@),
        -CHAIN_CLAMP <= y <= CHAIN_CLAMP,
{
    let raw: i64 = osc_step(p, st);
    let xi: i64 = scale_q(raw, p.gain);
    let yf: i64 = filter_step(p, st, xi);
    dc_step(st, yf)
}

/// One assembled voice: its fixed parameters and its running state.
pub struct SignalChain {
    /// The fixed description of the voice.
    pub params: VoiceParams,
    /// The running chain state.
    pub state: ChainState,
}

impl SignalChain {
    /// A chain is well formed when its parameters and state are.
    pub open spec fn wf(&self) -> bool {
        params_wf(self.params) && chain_wf(self.params, self.state@)
    }
}

/// The oscillator's own level before velocity, per waveform.
pub open spec fn wave_level_spec(w: Waveform) -> int {
    match w {
        Waveform::Sine => 6554,
        Waveform::Pluck => 32768,
        Waveform::Noise => 32768,
        _ => 13107,
    }
}

/// The parameters a voice is built with: the pitch of the note (doubled for
/// the sine, which sounds an octave up), the waveform level scaled by the
/// clamped velocity, and the vibrato depth `vibrato_amount * 0.006`.
pub open spec fn voice_params_spec(
    waveform: Waveform,
    filter: Filter,
    vibrato_amount: i64,
    midi_note: u8,
    velocity: i64,
    seed: u64,
) -> VoiceParams {
    let vel = if velocity < 0 {
        0
    } else if velocity > 65536 {
        65536
    } else {
        velocity as int
    };
    let va = if vibrato_amount < 0 {
        0
    } else if vibrato_amount > 65536 {
        65536
    } else {
        vibrato_amount as int
    };
    let freq = note_frequency_spec(midi_note as int);
    let inc = if waveform is Sine {
        ((2 * freq) * 65536) / 44100
    } else {
        (freq * 65536) / 44100
    };
    VoiceParams {
        waveform,
        filter,
        freq: freq as u64,
        phase_inc: inc as u64,
        gain: scale_spec(wave_level_spec(waveform), vel) as i64,
        vib: scale_spec(393, va) as i64,
        seed,
    }
}

/// Build one voice for a note: oscillator, filter and DC blocker, with the
/// velocity clamped into `[0, UNIT]` and the per-voice decorrelation seed
/// mixed into its noise and pluck excitation.  The voice is returned at its
/// initial state; nothing plays until it is scheduled.
pub fn build_voice(
    waveform: Waveform,
    filter: Filter,
    vibrato_amount: i64,
    midi_note: u8,
    velocity: i64,
    seed: u64,
) -> (chain: SignalChain)
    requires
        midi_note <= 127,
    ensures
        chain.params == voice_params_spec(
            waveform,
            filter,
            vibrato_amount,
            midi_note,
            velocity,
            seed,
        ),
        chain.state@ == init_model_spec(chain.params),
        chain.wf(),
{
    let vel: i64 = if velocity < 0 {
        0
    } else if velocity > 65536 {
        65536
    } else {
        velocity
    };
    let va: i64 = if vibrato_amount < 0 {
        0
    } else if vibrato_amount > 65536 {
        65536
    } else {
        vibrato_amount
    };
    let freq: u64 = note_frequency(midi_note);
    proof {
        crate::units::lemma_div_le_bound(((2 * freq) * 65536) as int, 2684354560, 44100);
        crate::units::lemma_div_le_bound((freq * 65536) as int, 2684354560, 44100);
        vstd::arithmetic::div_mod::lemma_div_is_ordered(65536, (freq * 65536) as int, 44100);
        vstd::arithmetic::div_mod::lemma_div_is_ordered(
            65536,
            ((2 * freq) * 65536) as int,
            44100,
        );
    }
    let inc: u64 = if matches!(waveform, Waveform::Sine) {
        ((2 * freq) * 65536) / 44100
    } else {
        (freq * 65536) / 44100
    };
    let level: i64 = match waveform {
        Waveform::Sine => 6554,
        Waveform::Pluck => 32768,
        Waveform::Noise => 32768,
        _ => 13107,
    };
    let gain: i64 = scale_q(level, vel);
    let vib: i64 = scale_q(393, va);
    let params = VoiceParams { waveform, filter, freq, phase_inc: inc, gain, vib, seed };
    let mut pluck: Vec<i64> = Vec::new();
    if matches!(waveform, Waveform::Pluck) {
        let plen64: u64 = 2890137600 / freq;
        let plen: usize = if plen64 < 2 {
            2
        } else if plen64 > 2048 {
            2048
        } else {
            plen64 as usize
        };
        let mut s: u64 = seed;
        let mut i: usize = 0;
        while i < plen
            invariant
                i <= plen,
                plen as int == pluck_len_spec(params),
                pluck@.len() == i,
                s as int == prng_iter_spec(seed as int, i as nat),
                forall|j: int|
                    0 <= j < i ==> #[trigger] pluck@[j] == pluck_init_spec(
                        seed,
                        plen as int,
                    )[j],
                forall|j: int| 0 <= j < i ==> -32768 <= #[trigger] pluck@[j] <= 32767,
            decreases plen - i,
        {
            s = prng_step(s);
            let v: i64 = (s / 281474976710656) as i64 - 32768;
            pluck.push(v);
            i += 1;
        }
        proof {
            assert(pluck@ =~= pluck_init_spec(seed, plen as int));
        }
    }
    let state = ChainState {
        phase: 0,
        vib_a: 0,
        vib_b: 0,
        duty: 0,
        sweep: match filter {
            Filter::Butterworth => 1310720000,
            Filter::DirtyBiquad => 1310720000,
            _ => 0,
        },
        noise: seed,
        n1: 0,
        n2: 0,
        pluck,
        pos: 0,
        f1: 0,
        f2: 0,
        f3: 0,
        f4: 0,
        dc_x: 0,
        dc_y: 0,
    };
    proof {
        assert(state@ =~= init_model_spec(params));
    }
    SignalChain { params, state }
}

} // verus!
