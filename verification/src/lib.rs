//! A polyphonic software synthesizer core.
//!
//! The library turns discrete note-on / note-off events into a pull-based,
//! deterministic audio-sample generator.  Samples are signed 16.16 fixed-point
//! values; a block is mixed by plain integer summation over the active voices,
//! so mixing is exactly commutative and associative.
//!
//! Modules, leaves first:
//! - [`units`]: fixed-point sample arithmetic and the shared waveshape helpers;
//! - [`notes`]: MIDI note numbers, pitch, note names, raw message decoding;
//! - [`rng`]: the deterministic seed generator (an outside crate, taken on trust);
//! - [`chain`]: one voice's signal chain (oscillator, filter, DC blocker);
//! - [`envelope`]: fade-in / fade-out amplitude envelopes;
//! - [`sequencer`]: the active-voice set and the `mix` entry point;
//! - [`engine`]: the facade holding the current settings;
//! - [`host`]: stateless marker types a host integration hangs its wiring on.

pub mod chain;
pub mod engine;
pub mod envelope;
pub mod host;
pub mod notes;
pub mod rng;
pub mod sequencer;
pub mod units;
