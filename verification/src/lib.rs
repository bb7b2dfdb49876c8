//! Core of a small polyphonic software synthesizer.
//!
//! The library turns note-on/note-off events into audio samples: a
//! per-note lifecycle state machine, an attack-decay-sustain-release
//! envelope, fixed-point oscillator waveforms, twelve-tone equal
//! temperament frequency mapping, and the per-frame render loop that
//! mixes the active voices.
//!
//! All amplitudes are fixed-point integers scaled by
//! [`AMPLITUDE_SCALE`]; oscillator phase is a fixed-point fraction of a
//! cycle scaled by [`PHASE_SCALE`].  A host that needs floating-point
//! samples divides by the scale at the edge.

pub mod audio_engine;
pub mod envelope;
pub mod frequency;
pub mod keyboard;
pub mod math;
pub mod note;

pub use audio_engine::{AudioModel, NoteEvent, SynthError};
pub use envelope::Envelope;
pub use note::Note;

use vstd::prelude::*;

verus! {

/// Fixed-point unit: this many amplitude units stand for 1.0.
pub const AMPLITUDE_SCALE: u64 = 1000000;

/// Amplitudes at or below this many units (0.0001) count as silence.
pub const LOWEST_AMPLITUDE: u64 = 100;

/// Fixed-point phase unit: this many phase units stand for one full
/// oscillator cycle.
pub const PHASE_SCALE: u64 = 0x100000000;

/// Sample rates the engine accepts: at least 1 kHz (so every envelope
/// stage lasts at least one tick) and at most 1 MHz.
pub open spec fn valid_sample_rate(sample_rate: u64) -> bool {
    1000 <= sample_rate <= 1000000
}

} // verus!
