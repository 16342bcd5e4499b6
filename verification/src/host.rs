//! Marker types for a host integration.
//!
//! A host (a game engine, an audio server) wires the synthesizer into its own
//! plugin and entity machinery; these empty markers are the names that wiring
//! goes by.  They carry no state and no behaviour of their own: the host
//! attaches them to its plugin registry or its scene entities, and everything
//! it then does with audio devices or spatial mixing happens on the host's
//! side of the boundary.

use vstd::prelude::*;

verus! {

/// Tags the host plugin that owns the audio output device.
pub struct AudioOutputPlugin;

/// Tags the host plugin group bundling this crate's audio-related plugins.
pub struct ModAudioPlugins;

/// Tags the host plugin that keeps spatial sinks in step with the scene.
pub struct SpatialAudioPlugin;

/// Tags the single listener entity: the imaginary microphone that receives
/// all sound.  A host keeps at most one of these at a time.
pub struct SpatialAudioListener;

} // verus!
