use vstd::prelude::*;
use vstd::arithmetic::div_mod::{
    lemma_div_is_ordered, lemma_div_multiples_vanish, lemma_div_pos_is_pos,
    lemma_hoist_over_denominator,
};
use vstd::arithmetic::mul::{lemma_mul_basics, lemma_mul_is_commutative, lemma_mul_unary_negation};
use crate::codec::{stream_sample, AdpcmStream};
use crate::latest::LatestCell;
use crate::signal::{crossfade_weight, spec_clamped, spec_output, trunc_div, InputValue};

verus! {

/// Raw data ready to send to the DAC: two 16-bit codewords, each a 12-bit
/// sample joined with a fixed 4-bit device-configuration header in the top
/// bits (channel select, gain select, channel enable).
#[derive(Clone, Copy, PartialEq, Eq, Structural, Debug)]
pub struct DACSamplePair {
    pub audio1: u16,
    pub audio2: u16,
}

impl DACSamplePair {
    /// Header for the first channel: channel A, 1x gain, channel enabled.
    pub const CONFIG1: u16 = 0b0001_0000_0000_0000;

    /// Header for the second channel: channel B, 1x gain, channel enabled.
    pub const CONFIG2: u16 = 0b1001_0000_0000_0000;

    /// Keep each sample's low 12 bits and join the fixed header bits.
    pub fn new(sample1: u16, sample2: u16) -> (p: Self)
        ensures
            p.audio1 == sample1 % 4096 + 4096,
            p.audio2 == sample2 % 4096 + 36864,
    {
        DACSamplePair {
            audio1: sample1 % 4096 + Self::CONFIG1,
            audio2: sample2 % 4096 + Self::CONFIG2,
        }
    }
}

/// Accumulator of a stream sample downsampled from the 16-bit to the 12-bit
/// domain by an arithmetic shift of four bits.
pub open spec fn downsampled_accum(s: i16) -> int {
    16 * (s as int / 16)
}

/// The mixing rule on accumulators: a non-negative intensity crossfades from
/// the medium stream up toward the heavy stream; a negative intensity
/// crossfades from the medium stream down toward the light stream by the
/// intensity's magnitude.
pub open spec fn spec_mix(l: int, m: int, h: int, i: int) -> int {
    if i >= 0 {
        16 * trunc_div(spec_clamped(m) * (2047 - crossfade_weight(i)), 2047) + 16 * trunc_div(
            spec_clamped(h) * crossfade_weight(i),
            2047,
        )
    } else {
        let a: int = if i == i32::MIN { 0x7FFF_FFF0 } else { -i };
        16 * trunc_div(spec_clamped(m) * (2047 - crossfade_weight(a)), 2047) + 16 * trunc_div(
            spec_clamped(l) * crossfade_weight(a),
            2047,
        )
    }
}

/// A clamped value and a crossfade weight multiply into a bounded quotient.
proof fn lemma_scaled_term_bounds(c: int, w: int)
    requires
        -2048 <= c <= 2047,
        0 <= w <= 2047,
    ensures
        -2048 <= trunc_div(c * w, 2047) <= 2047,
{
    assert(-2048 * 2047 <= c * w <= 2047 * 2047) by (nonlinear_arith)
        requires
            -2048 <= c <= 2047,
            0 <= w <= 2047,
    ;
    if c * w >= 0 {
        lemma_div_pos_is_pos(c * w, 2047);
        lemma_div_is_ordered(c * w, (2047 * 2047) as int, 2047);
        lemma_div_multiples_vanish(2047, 2047);
        lemma_mul_is_commutative(2047, 2047);
    } else {
        lemma_div_pos_is_pos(-(c * w), 2047);
        lemma_div_is_ordered(-(c * w), (2048 * 2047) as int, 2047);
        lemma_div_multiples_vanish(2048, 2047);
        lemma_mul_is_commutative(2048, 2047);
    }
}

/// Scaling by the full weight is exact and scaling by the zero weight
/// vanishes.
proof fn lemma_weight_end_points(c: int)
    requires
        -2048 <= c <= 2047,
    ensures
        trunc_div(c * 2047, 2047) == c,
        trunc_div(c * 0, 2047) == 0,
{
    lemma_mul_basics(c);
    if c >= 0 {
        lemma_div_multiples_vanish(c, 2047);
        lemma_mul_is_commutative(c, 2047);
    } else {
        lemma_mul_unary_negation(c, 2047);
        lemma_div_multiples_vanish(-c, 2047);
        lemma_mul_is_commutative(-c, 2047);
    }
}

/// Blend one sample of each stream by the current intensity.
///
/// At the zero intensity the output is exactly the (clamped) medium sample;
/// at the maximum intensity exactly the heavy sample; at the minimum
/// intensity exactly the light sample.
pub fn mix(light: InputValue, medium: InputValue, heavy: InputValue, intensity: InputValue) -> (r:
    InputValue)
    ensures
        r.accum() == spec_mix(light.accum(), medium.accum(), heavy.accum(), intensity.accum()),
        intensity.accum() == 0 ==> r.accum() == 16 * spec_clamped(medium.accum()),
        spec_clamped(intensity.accum()) == 2047 ==> r.accum() == 16 * spec_clamped(heavy.accum()),
        spec_clamped(intensity.accum()) == -2048 ==> r.accum() == 16 * spec_clamped(light.accum()),
{
    proof {
        lemma_scaled_term_bounds(
            spec_clamped(medium.accum()),
            2047 - crossfade_weight(intensity.accum()),
        );
        lemma_scaled_term_bounds(spec_clamped(heavy.accum()), crossfade_weight(intensity.accum()));
        lemma_weight_end_points(spec_clamped(medium.accum()));
        lemma_weight_end_points(spec_clamped(heavy.accum()));
        lemma_weight_end_points(spec_clamped(light.accum()));
    }
    let r = if intensity.is_nonnegative() {
        medium.scale_inverted(intensity).add(heavy.scale(intensity))
    } else {
        let magnitude = intensity.abs();
        proof {
            lemma_scaled_term_bounds(
                spec_clamped(medium.accum()),
                2047 - crossfade_weight(magnitude.accum()),
            );
            lemma_scaled_term_bounds(
                spec_clamped(light.accum()),
                crossfade_weight(magnitude.accum()),
            );
            lemma_weight_end_points(spec_clamped(medium.accum()));
        }
        medium.scale_inverted(magnitude).add(light.scale(magnitude))
    };
    r
}

/// Downsample a 16-bit stream sample into the 12-bit domain and wrap it as a
/// signal value.
pub fn downsample(s: i16) -> (v: InputValue)
    ensures
        v.accum() == downsampled_accum(s),
        !v.inverted(),
{
    let shifted: i32 = (s as i32) + 32768;
    let base: i32 = shifted / 16 - 2048;
    proof {
        lemma_hoist_over_denominator(s as int, 2048, 16);
    }
    InputValue::new(base, false)
}

/// One step of the diagnostic sawtooth on the second output channel: up by
/// eight, restarting from zero past the output ceiling.
pub open spec fn spec_saw_next(s: u16) -> int {
    if s + 8 > 2047 {
        0
    } else {
        s + 8
    }
}

/// The audio decode/mix pipeline: three looping compressed streams blended by
/// the most recently seen intensity into ready-to-send sample pairs, with a
/// diagnostic sawtooth on the second channel.
pub struct Mixer {
    light: AdpcmStream,
    medium: AdpcmStream,
    heavy: AdpcmStream,
    intensity: InputValue,
    saw: u16,
}

impl Mixer {
    pub closed spec fn light_payload(self) -> Seq<u8> {
        self.light.payload()
    }

    pub closed spec fn medium_payload(self) -> Seq<u8> {
        self.medium.payload()
    }

    pub closed spec fn heavy_payload(self) -> Seq<u8> {
        self.heavy.payload()
    }

    pub closed spec fn light_position(self) -> int {
        self.light.position()
    }

    pub closed spec fn medium_position(self) -> int {
        self.medium.position()
    }

    pub closed spec fn heavy_position(self) -> int {
        self.heavy.position()
    }

    /// The intensity the pipeline last saw; zero (pure medium) until an
    /// intensity is first published.
    pub closed spec fn current_intensity(self) -> InputValue {
        self.intensity
    }

    pub closed spec fn saw(self) -> u16 {
        self.saw
    }

    /// Well-formed pipeline: the three streams are well-formed and the
    /// sawtooth stays within the output domain.
    pub closed spec fn wf(self) -> bool {
        &&& self.light.wf()
        &&& self.medium.wf()
        &&& self.heavy.wf()
        &&& self.saw <= 2047
    }

    /// Build the pipeline over the three compressed payloads. The streams
    /// start at distinct prime offsets purely so they do not all decode a
    /// fresh block on the same tick; the intensity is latched at zero until
    /// one is published.
    pub fn new(light_data: Vec<u8>, medium_data: Vec<u8>, heavy_data: Vec<u8>) -> (mx: Self)
        requires
            light_data@.len() >= 1024,
            medium_data@.len() >= 1024,
            heavy_data@.len() >= 1024,
        ensures
            mx.wf(),
            mx.light_payload() == light_data@,
            mx.medium_payload() == medium_data@,
            mx.heavy_payload() == heavy_data@,
            mx.light_position() == 0,
            mx.medium_position() == 277,
            mx.heavy_position() == 691,
            mx.current_intensity().accum() == 0,
            !mx.current_intensity().inverted(),
            mx.saw() == 0,
    {
        Mixer {
            light: AdpcmStream::new(light_data, 0),
            medium: AdpcmStream::new(medium_data, 277),
            heavy: AdpcmStream::new(heavy_data, 691),
            intensity: InputValue::new(0, false),
            saw: 0,
        }
    }

    /// One output tick: pull one sample from each stream, refresh the latched
    /// intensity if a new one was published, blend by the mixing rule, and
    /// build the output pair with the sawtooth on the second channel.
    pub fn tick(&mut self, intensity_cell: &mut LatestCell<InputValue>, reader: usize) -> (pair:
        DACSamplePair)
        requires
            old(self).wf(),
            reader < old(intensity_cell).readers(),
        ensures
            final(self).wf(),
            final(self).light_payload() == old(self).light_payload(),
            final(self).medium_payload() == old(self).medium_payload(),
            final(self).heavy_payload() == old(self).heavy_payload(),
            final(self).light_position() == old(self).light_position() + 1,
            final(self).medium_position() == old(self).medium_position() + 1,
            final(self).heavy_position() == old(self).heavy_position() + 1,
            final(intensity_cell).readers() == old(intensity_cell).readers(),
            final(intensity_cell).current() == old(intensity_cell).current(),
            final(intensity_cell).seen_flags() == (if old(intensity_cell).current() is Some && !old(
                intensity_cell,
            ).seen_flags()[reader as int] {
                old(intensity_cell).seen_flags().update(reader as int, true)
            } else {
                old(intensity_cell).seen_flags()
            }),
            final(self).current_intensity() == (if old(intensity_cell).current() is Some && !old(
                intensity_cell,
            ).seen_flags()[reader as int] {
                old(intensity_cell).current()->Some_0
            } else {
                old(self).current_intensity()
            }),
            final(self).saw() == spec_saw_next(old(self).saw()),
            pair.audio1 == spec_output(
                spec_mix(
                    downsampled_accum(
                        stream_sample(old(self).light_payload(), old(self).light_position()),
                    ),
                    downsampled_accum(
                        stream_sample(old(self).medium_payload(), old(self).medium_position()),
                    ),
                    downsampled_accum(
                        stream_sample(old(self).heavy_payload(), old(self).heavy_position()),
                    ),
                    final(self).current_intensity().accum(),
                ),
            ) + 4096,
            pair.audio2 == spec_saw_next(old(self).saw()) + 36864,
    {
        let light_sample = self.light.next_sample();
        let medium_sample = self.medium.next_sample();
        let heavy_sample = self.heavy.next_sample();
        let light_value = downsample(light_sample);
        let medium_value = downsample(medium_sample);
        let heavy_value = downsample(heavy_sample);
        if let Some(fresh) = intensity_cell.try_get(reader) {
            self.intensity = fresh;
        }
        let mixed = mix(light_value, medium_value, heavy_value, self.intensity);
        let mut saw = self.saw + 8;
        if saw > 2047 {
            saw = 0;
        }
        self.saw = saw;
        let out1 = mixed.to_output();
        DACSamplePair::new(out1, saw)
    }
}

} // verus!
