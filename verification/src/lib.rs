use vstd::prelude::*;

pub mod codec;
pub mod control;
pub mod handoff;
pub mod latest;
pub mod led;
pub mod mixer;
pub mod mux;
pub mod output;
pub mod signal;

verus! {

/// Saturate an integer into the signed 12-bit range used throughout the voice.
pub open spec fn clamp_12(x: int) -> int {
    if x < -2048 {
        -2048
    } else if x > 2047 {
        2047
    } else {
        x
    }
}

/// Executable saturation into the signed 12-bit range.
pub fn clamp_to_12_bits(x: i32) -> (r: i32)
    ensures
        r as int == clamp_12(x as int),
{
    if x < -2048 {
        -2048
    } else if x > 2047 {
        2047
    } else {
        x
    }
}

} // verus!
