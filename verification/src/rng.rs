//! The engine's deterministic seed generator.
//!
//! Each voice gets a pseudo-random decorrelation seed so that two voices
//! playing the same note do not share oscillator noise or pluck excitation.
//! The numbers come from the `funutd` crate's Krull64 generator, which the
//! engine seeds once at construction; nothing downstream depends on which
//! numbers come out, only that each voice receives some `u64`, so the
//! contracts below promise nothing about the values.

use vstd::prelude::*;

verus! {

/// Declares `funutd::Rnd`, the Krull64 pseudo-random generator: three `u64`
/// words of state, opaque to this library.
#[verifier::external_type_specification]
#[verifier::external_body]
pub struct ExRnd(funutd::Rnd);

/// Relies on `funutd::Rnd::from_u64`, which builds a generator from a seed
/// without panicking; which stream it selects is not relied on.
pub assume_specification[ funutd::Rnd::from_u64 ](seed: u64) -> funutd::Rnd;

/// Relies on `funutd::Rnd::u64`, which steps the generator and returns the
/// next word of its stream without panicking; the value is not relied on.
pub assume_specification[ funutd::Rnd::u64 ](rnd: &mut funutd::Rnd) -> u64;

} // verus!
