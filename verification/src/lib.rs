//! Core of an interactive noise and tone mixer: per-source gain controls with
//! a mute state machine on the master, deterministic fixed-point signal
//! sources, a mixing and conditioning graph, the frame-filling render step,
//! and the persisted-gains record.
//!
//! Gains and samples are fixed-point integers throughout, so every rule of the
//! mixer (clamping, mute round trips, silence on zero gains, the output
//! amplitude bound) is stated and proved exactly. The surrounding program
//! converts to and from the audio device's floating-point formats at the edge.
use vstd::prelude::*;

pub mod app;
pub mod audio;
pub mod state;
pub mod synth;
pub mod ui;

verus! {

/// One full-scale gain in fixed-point units. The scale is a multiple of both
/// 20 and 9, so the 1/20 nudge step and the ninths selected by the digit keys
/// are represented exactly.
pub const GAIN_UNIT: u32 = 9000;

/// How far one nudge moves a gain: 1/20 of full scale.
pub const VOLUME_STEP: u32 = 450;

/// Gains are stored clamped to the closed range [0, GAIN_UNIT].
pub open spec fn valid_gain(g: u32) -> bool {
    g <= GAIN_UNIT
}

/// What a written gain becomes: the value clamped into [0, GAIN_UNIT].
pub open spec fn spec_clamp_gain(v: int) -> int {
    if v < 0 {
        0
    } else if v > GAIN_UNIT {
        GAIN_UNIT as int
    } else {
        v
    }
}

/// Clamp a requested gain into the valid range.
pub fn clamp_gain(v: i64) -> (r: u32)
    ensures
        r as int == spec_clamp_gain(v as int),
        valid_gain(r),
{
    if v < 0 {
        0
    } else if v > GAIN_UNIT as i64 {
        GAIN_UNIT
    } else {
        v as u32
    }
}

} // verus!
