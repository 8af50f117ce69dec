//! Core of a local music player: the three-thread audio engine and the
//! lock-free data path connecting them.
//!
//! Samples are 32-bit IEEE-754 floats. Throughout this library a sample is
//! carried as its bit pattern in a `u32`: the data path never does float
//! arithmetic of its own (the "bit-perfect" contract is exactly that samples
//! pass through untouched), so equality of bit patterns is the property the
//! library reasons about. The host shell converts between floats and bit
//! patterns at the edges and evaluates the few float formulas (replay-gain
//! decibel conversion, the equal-power fade curve) that this library plans
//! but does not compute.

pub mod bits;
pub mod decoder;
pub mod engine;
pub mod fade;
pub mod gain;
pub mod meta;
pub mod null_test;
pub mod profiles;
pub mod scan;
pub mod ring;
pub mod text;

use vstd::prelude::*;

verus! {

/// Ring buffer size in samples. Power of two for lock-free masking;
/// about 1.5 s at 44.1 kHz stereo.
pub const RING_BUFFER_SIZE: usize = 131072;

/// Fade ramp in samples. 256 samples at 44.1 kHz is roughly 5.8 ms:
/// short enough to feel instant, long enough to eliminate clicks.
pub const FADE_RAMP_SAMPLES: usize = 256;

} // verus!
