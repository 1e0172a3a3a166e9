use vstd::prelude::*;
use vstd::arithmetic::div_mod::{
    lemma_div_multiples_vanish, lemma_fundamental_div_mod, lemma_mod_multiples_basic,
};
use crate::clamp_12;

verus! {

/// One logical unit is sixteen accumulator units: every stored reading keeps
/// four extra fractional bits of headroom for repeated scaling.
pub const ACCUM_SCALE: i32 = 16;

/// Clamped value of an accumulator `a`: the headroom bits are shifted off and
/// the result saturates to the signed 12-bit domain.
pub open spec fn spec_clamped(a: int) -> int {
    clamp_12(a / 16)
}

/// Output-domain value of an accumulator `a`: the clamped value recentred to
/// the unsigned range and halved into the 11-bit output domain.
pub open spec fn spec_output(a: int) -> int {
    (spec_clamped(a) + 2048) / 2
}

/// Accumulator written by `update` for a reading `value`: the reading is
/// recentred around zero, and negated for a value from an inverted source.
pub open spec fn spec_update_accum(inverted: bool, value: u16) -> int {
    if inverted {
        -16 * (value - 2048)
    } else {
        16 * (value - 2048)
    }
}

/// Division truncating toward zero, as the executable `/` computes it.
pub open spec fn trunc_div(x: int, d: int) -> int {
    if x >= 0 && d > 0 {
        x / d
    } else if x <= 0 && d < 0 {
        (-x) / (-d)
    } else if x < 0 {
        -((-x) / d)
    } else {
        -(x / (-d))
    }
}

/// Crossfade weight carried by an intensity accumulator: its clamped value,
/// floored at zero, so a weight runs from 0 (silent) to 2047 (full scale).
pub open spec fn crossfade_weight(a: int) -> int {
    if spec_clamped(a) < 0 {
        0
    } else {
        spec_clamped(a)
    }
}

/// A 12-bit value representing input from a knob or input jack's ADC.
///
/// Normalized to the range -2048 to 2047 inclusive. The accumulator stores
/// the value times `ACCUM_SCALE`, giving room for integer math without
/// allocations; between conversions it may run beyond the logical range.
/// Conversions out saturate (clamp) rather than fail.
#[derive(Clone, Copy, PartialEq, Eq, Structural, Debug)]
pub struct InputValue {
    accumulated_raw: i32,
    inverted_source: bool,
}

impl InputValue {
    pub const MIN: i32 = -2048;

    pub const MAX: i32 = 2047;

    pub const CENTER: i32 = 0;

    pub const OFFSET: i32 = 2048;

    /// The raw accumulator: the model of this type.
    pub closed spec fn accum(self) -> int {
        self.accumulated_raw as int
    }

    /// Whether the value was constructed from an inverted source.
    pub closed spec fn inverted(self) -> bool {
        self.inverted_source
    }

    /// The accumulator always holds a whole multiple of the headroom scale.
    #[verifier::type_invariant]
    pub open spec fn scale_aligned(self) -> bool {
        self.accum() % 16 == 0
    }

    pub fn new(raw_value: i32, invert: bool) -> (r: Self)
        requires
            -0x0800_0000 < raw_value < 0x0800_0000,
        ensures
            r.accum() == (if invert {
                -(raw_value as int)
            } else {
                raw_value as int
            }) * 16,
            r.inverted() == invert,
    {
        let signed: i32 = if invert {
            -raw_value
        } else {
            raw_value
        };
        proof {
            lemma_mod_multiples_basic(signed as int, 16);
        }
        InputValue { accumulated_raw: signed * ACCUM_SCALE, inverted_source: invert }
    }

    /// Convert from u16 and offset the value so the center reading sits at zero.
    pub fn from_u16(value: u16, invert: bool) -> (r: Self)
        ensures
            r.accum() == (if invert {
                -((value as int) - 2048)
            } else {
                (value as int) - 2048
            }) * 16,
            r.inverted() == invert,
    {
        let centered: i32 = (value as i32) - 2048;
        Self::new(centered, invert)
    }

    /// Overwrite the accumulator from a fresh unsigned reading, recentred
    /// around zero and negated for an inverted source.
    pub fn update(&mut self, value: u16)
        ensures
            final(self).inverted() == old(self).inverted(),
            final(self).accum() == spec_update_accum(old(self).inverted(), value),
    {
        let mut centered: i32 = (value as i32) - 2048;
        if self.inverted_source {
            centered = -centered;
        }
        proof {
            lemma_mod_multiples_basic(centered as int, 16);
        }
        self.accumulated_raw = centered * ACCUM_SCALE;
    }

    /// Saturating conversion into the logical 12-bit range.
    pub fn to_clamped(&self) -> (r: i32)
        ensures
            r as int == spec_clamped(self.accum()),
    {
        proof {
            use_type_invariant(self);
        }
        let base = self.accumulated_raw / ACCUM_SCALE;
        crate::clamp_to_12_bits(base)
    }

    /// Saturating conversion into the unsigned 11-bit output domain.
    pub fn to_output(&self) -> (r: u16)
        ensures
            r as int == spec_output(self.accum()),
    {
        let clamped = self.to_clamped();
        ((clamped + 2048) / 2) as u16
    }

    /// Saturating conversion into the unsigned 11-bit output domain, inverted.
    pub fn to_output_inverted(&self) -> (r: u16)
        ensures
            r as int == 2047 - spec_output(self.accum()),
    {
        2047 - self.to_output()
    }

    /// True when the accumulated value sits at or above the center.
    pub fn is_nonnegative(&self) -> (b: bool)
        ensures
            b == (self.accum() >= 0),
    {
        self.accumulated_raw >= 0
    }

    /// Magnitude of the value, saturating at the largest aligned accumulator.
    pub fn abs(self) -> (r: Self)
        ensures
            r.inverted() == self.inverted(),
            r.accum() == (if self.accum() == i32::MIN {
                0x7FFF_FFF0
            } else if self.accum() < 0 {
                -self.accum()
            } else {
                self.accum()
            }),
    {
        proof {
            use_type_invariant(&self);
        }
        let magnitude: i32 = if self.accumulated_raw == i32::MIN {
            0x7FFF_FFF0
        } else if self.accumulated_raw < 0 {
            proof {
                assert((-self.accum()) % 16 == 0) by {
                    lemma_fundamental_div_mod(self.accum(), 16);
                    lemma_mod_multiples_basic(-(self.accum() / 16), 16);
                };
            }
            -self.accumulated_raw
        } else {
            self.accumulated_raw
        };
        InputValue { accumulated_raw: magnitude, ..self }
    }

    pub fn add(self, rhs: Self) -> (r: Self)
        requires
            i32::MIN <= self.accum() + rhs.accum() <= i32::MAX,
        ensures
            r.accum() == self.accum() + rhs.accum(),
            r.inverted() == self.inverted(),
    {
        proof {
            use_type_invariant(&self);
            use_type_invariant(&rhs);
            assert((self.accum() + rhs.accum()) % 16 == 0) by {
                lemma_fundamental_div_mod(self.accum(), 16);
                lemma_fundamental_div_mod(rhs.accum(), 16);
                lemma_mod_multiples_basic(self.accum() / 16 + rhs.accum() / 16, 16);
            };
        }
        InputValue { accumulated_raw: self.accumulated_raw + rhs.accumulated_raw, ..self }
    }

    pub fn sub(self, rhs: Self) -> (r: Self)
        requires
            i32::MIN <= self.accum() - rhs.accum() <= i32::MAX,
        ensures
            r.accum() == self.accum() - rhs.accum(),
            r.inverted() == self.inverted(),
    {
        proof {
            use_type_invariant(&self);
            use_type_invariant(&rhs);
            assert((self.accum() - rhs.accum()) % 16 == 0) by {
                lemma_fundamental_div_mod(self.accum(), 16);
                lemma_fundamental_div_mod(rhs.accum(), 16);
                lemma_mod_multiples_basic(self.accum() / 16 - rhs.accum() / 16, 16);
            };
        }
        InputValue { accumulated_raw: self.accumulated_raw - rhs.accumulated_raw, ..self }
    }

    /// Multiply by another value; both operands are de-scaled first and the
    /// product is re-scaled, truncating toward zero.
    pub fn mul_signal(self, rhs: Self) -> (r: Self)
        requires
            i32::MIN <= 16 * ((self.accum() / 16) * (rhs.accum() / 16)) <= i32::MAX,
        ensures
            r.accum() == 16 * ((self.accum() / 16) * (rhs.accum() / 16)),
            r.inverted() == self.inverted(),
    {
        proof {
            use_type_invariant(&self);
            use_type_invariant(&rhs);
        }
        let base = self.accumulated_raw / ACCUM_SCALE;
        let rhs_base = rhs.accumulated_raw / ACCUM_SCALE;
        let prod = base * rhs_base;
        proof {
            lemma_mod_multiples_basic(prod as int, 16);
        }
        InputValue { accumulated_raw: prod * ACCUM_SCALE, ..self }
    }

    /// Multiply by a plain integer on the de-scaled value.
    ///
    /// Multiplying by 0 yields the zero value, by 1 the same value, and by -1
    /// the negated value.
    pub fn mul_int(self, rhs: i32) -> (r: Self)
        requires
            i32::MIN <= 16 * ((self.accum() / 16) * rhs) <= i32::MAX,
        ensures
            r.accum() == 16 * ((self.accum() / 16) * rhs),
            r.inverted() == self.inverted(),
            rhs == 0 ==> r.accum() == 0,
            rhs == 1 ==> r.accum() == self.accum(),
            rhs == -1 ==> r.accum() == -self.accum(),
    {
        proof {
            use_type_invariant(&self);
            lemma_fundamental_div_mod(self.accum(), 16);
        }
        let base = self.accumulated_raw / ACCUM_SCALE;
        let prod = base * rhs;
        proof {
            lemma_mod_multiples_basic(prod as int, 16);
        }
        InputValue { accumulated_raw: prod * ACCUM_SCALE, ..self }
    }

    /// Divide the de-scaled value by a plain integer, truncating toward zero.
    pub fn div_int(self, rhs: i32) -> (r: Self)
        requires
            rhs != 0,
            i32::MIN <= 16 * trunc_div(self.accum() / 16, rhs as int) <= i32::MAX,
        ensures
            r.accum() == 16 * trunc_div(self.accum() / 16, rhs as int),
            r.inverted() == self.inverted(),
    {
        proof {
            use_type_invariant(&self);
        }
        let base = self.accumulated_raw / ACCUM_SCALE;
        let dividend_mag: i64 = if base < 0 {
            -(base as i64)
        } else {
            base as i64
        };
        let divisor_mag: i64 = if rhs < 0 {
            -(rhs as i64)
        } else {
            rhs as i64
        };
        proof {
            vstd::arithmetic::div_mod::lemma_div_pos_is_pos(dividend_mag as int, divisor_mag as int);
            vstd::arithmetic::div_mod::lemma_div_nonincreasing(dividend_mag as int, divisor_mag as int);
        }
        let quot_mag: i64 = dividend_mag / divisor_mag;
        let quot: i32 = if (base < 0) != (rhs < 0) {
            (-quot_mag) as i32
        } else {
            quot_mag as i32
        };
        proof {
            lemma_mod_multiples_basic(quot as int, 16);
        }
        InputValue { accumulated_raw: quot * ACCUM_SCALE, ..self }
    }

    /// Linear crossfade weighting: multiply by `intensity` normalized to
    /// [0, 1] over the positive half-range, truncating toward zero.
    pub fn scale(self, intensity: Self) -> (r: Self)
        ensures
            r.inverted() == self.inverted(),
            r.accum() == 16 * trunc_div(
                spec_clamped(self.accum()) * crossfade_weight(intensity.accum()),
                2047,
            ),
    {
        let base = self.to_clamped();
        let weight = crossfade_weight_of(&intensity);
        scaled_by_weight(self, base, weight)
    }

    /// Linear crossfade weighting by the complement of `intensity`: the
    /// weight is the distance from `intensity` to the full positive scale.
    pub fn scale_inverted(self, intensity: Self) -> (r: Self)
        ensures
            r.inverted() == self.inverted(),
            r.accum() == 16 * trunc_div(
                spec_clamped(self.accum()) * (2047 - crossfade_weight(intensity.accum())),
                2047,
            ),
    {
        let base = self.to_clamped();
        let weight = 2047 - crossfade_weight_of(&intensity);
        scaled_by_weight(self, base, weight)
    }
}

/// Executable crossfade weight of an intensity value.
fn crossfade_weight_of(intensity: &InputValue) -> (w: i32)
    ensures
        w as int == crossfade_weight(intensity.accum()),
        0 <= w <= 2047,
{
    let clamped = intensity.to_clamped();
    if clamped < 0 {
        0
    } else {
        clamped
    }
}

/// Re-scaled weighted product shared by the two scaling operations.
fn scaled_by_weight(source: InputValue, base: i32, weight: i32) -> (r: InputValue)
    requires
        base as int == spec_clamped(source.accum()),
        0 <= weight <= 2047,
    ensures
        r.inverted() == source.inverted(),
        r.accum() == 16 * trunc_div(base as int * weight as int, 2047),
{
    proof {
        assert(-2048 <= spec_clamped(source.accum()) <= 2047);
        assert(-2048 * 2047 <= base as int * weight as int <= 2047 * 2047) by (nonlinear_arith)
            requires
                -2048 <= base as int <= 2047,
                0 <= weight as int <= 2047,
        ;
        lemma_trunc_div_magnitude(base as int * weight as int, 2047);
    }
    let prod = base * weight;
    let quot = prod / 2047;
    proof {
        lemma_mod_multiples_basic(quot as int, 16);
    }
    InputValue { accumulated_raw: quot * ACCUM_SCALE, inverted_source: source.inverted_source }
}

/// The magnitude of a truncating quotient never exceeds the dividend's.
proof fn lemma_trunc_div_magnitude(x: int, d: int)
    requires
        d != 0,
    ensures
        x >= 0 ==> -x <= trunc_div(x, d) <= x,
        x < 0 ==> x <= trunc_div(x, d) <= -x,
{
    let m: int = if d < 0 { -d } else { d };
    if x >= 0 {
        vstd::arithmetic::div_mod::lemma_div_pos_is_pos(x, m);
        vstd::arithmetic::div_mod::lemma_div_nonincreasing(x, m);
    } else {
        vstd::arithmetic::div_mod::lemma_div_pos_is_pos(-x, m);
        vstd::arithmetic::div_mod::lemma_div_nonincreasing(-x, m);
    }
}

/// Law: a full-range raw reading converts into the clamped 12-bit domain
/// exactly, so the conversion stays within the domain and is monotonic.
pub proof fn lemma_raw_reading_monotonic(a: u16, b: u16)
    requires
        a <= b,
        b <= 4095,
    ensures
        spec_clamped(((a as int) - 2048) * 16) == a - 2048,
        -2048 <= spec_clamped(((a as int) - 2048) * 16) <= 2047,
        spec_clamped(((a as int) - 2048) * 16) <= spec_clamped(((b as int) - 2048) * 16),
{
    lemma_div_multiples_vanish((a as int) - 2048, 16);
    lemma_div_multiples_vanish((b as int) - 2048, 16);
}

} // verus!
