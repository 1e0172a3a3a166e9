use vstd::prelude::*;

verus! {

/// Rough LED brightness correction: a square-law gamma curve over the 11-bit
/// output domain, saturating at the PWM ceiling.
pub fn led_gamma(value: u16) -> (r: u16)
    ensures
        r as int == (if (value * value) / 2048 > 65535 {
            65535int
        } else {
            (value * value) / 2048
        }),
{
    let wide: u32 = value as u32;
    proof {
        assert(wide * wide <= 65535 * 65535) by (nonlinear_arith)
            requires
                wide <= 65535,
        ;
    }
    let curved: u32 = (wide * wide) / 2048;
    if curved > 65535 {
        65535
    } else {
        curved as u16
    }
}

} // verus!
