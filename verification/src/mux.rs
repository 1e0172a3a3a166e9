use vstd::prelude::*;
use crate::signal::{spec_update_accum, InputValue};

verus! {

/// The state of the three position Z switch.
#[derive(Clone, Copy, PartialEq, Eq, Structural, Debug)]
pub enum ZSwitch {
    On,
    Off,
    Momentary,
}

impl ZSwitch {
    pub fn default() -> (z: ZSwitch)
        ensures
            z == ZSwitch::Off,
    {
        ZSwitch::Off
    }
}

/// Threshold rule deriving the switch position from a raw mux reading.
pub open spec fn spec_zswitch_of(level: u16) -> ZSwitch {
    if level < 1000 {
        ZSwitch::Momentary
    } else if level > 3000 {
        ZSwitch::On
    } else {
        ZSwitch::Off
    }
}

/// Derive the Z switch position from a raw mux reading.
pub fn zswitch_of_raw(level: u16) -> (z: ZSwitch)
    ensures
        z == spec_zswitch_of(level),
{
    if level < 1000 {
        ZSwitch::Momentary
    } else if level > 3000 {
        ZSwitch::On
    } else {
        ZSwitch::Off
    }
}

/// A jack input's pair of readings: the plain reading and the reading taken
/// with the normalization probe asserted. Both are stored; no comparison is
/// made between them yet.
#[derive(Clone, Copy, PartialEq, Eq, Structural, Debug)]
pub struct JackSample {
    pub raw: InputValue,
    pub probe: InputValue,
}

impl JackSample {
    pub fn new(raw: InputValue, probe: InputValue) -> (j: JackSample)
        ensures
            j.raw == raw,
            j.probe == probe,
    {
        JackSample { raw, probe }
    }
}

/// State of the inputs collected via the ADC mux device: one aggregate
/// snapshot per sampling cycle, published by value when the cycle completes.
#[derive(Clone, Copy)]
pub struct MuxState {
    pub main_knob: InputValue,
    pub x_knob: InputValue,
    pub y_knob: InputValue,
    pub zswitch: ZSwitch,
    pub cv1: JackSample,
    pub cv2: JackSample,
    pub sequence_counter: usize,
}

/// The six ordered phases of one mux sampling cycle. The cycle is a fixed
/// round robin: no transition branches on data.
#[derive(Clone, Copy, PartialEq, Eq, Structural, Debug)]
pub enum MuxPhase {
    /// Select the main knob and the CV1 jack, then read both channels.
    MainAndCv1,
    /// Read the CV1 jack again with the normalization probe asserted.
    Cv1Probe,
    /// Select the X knob and the CV2 jack, then read both channels.
    XAndCv2,
    /// Read the CV2 jack again with the normalization probe asserted.
    Cv2Probe,
    /// Select and read the Y knob.
    YKnob,
    /// Select and read the Z switch.
    ZRead,
}

impl MuxPhase {
    /// The phase that opens every cycle.
    pub fn first() -> (p: Self)
        ensures
            p == MuxPhase::MainAndCv1,
    {
        MuxPhase::MainAndCv1
    }

    /// The cyclic successor of this phase.
    pub open spec fn spec_next(self) -> Self {
        match self {
            MuxPhase::MainAndCv1 => MuxPhase::Cv1Probe,
            MuxPhase::Cv1Probe => MuxPhase::XAndCv2,
            MuxPhase::XAndCv2 => MuxPhase::Cv2Probe,
            MuxPhase::Cv2Probe => MuxPhase::YKnob,
            MuxPhase::YKnob => MuxPhase::ZRead,
            MuxPhase::ZRead => MuxPhase::MainAndCv1,
        }
    }

    pub fn next(self) -> (p: Self)
        ensures
            p == self.spec_next(),
    {
        match self {
            MuxPhase::MainAndCv1 => MuxPhase::Cv1Probe,
            MuxPhase::Cv1Probe => MuxPhase::XAndCv2,
            MuxPhase::XAndCv2 => MuxPhase::Cv2Probe,
            MuxPhase::Cv2Probe => MuxPhase::YKnob,
            MuxPhase::YKnob => MuxPhase::ZRead,
            MuxPhase::ZRead => MuxPhase::MainAndCv1,
        }
    }

    /// Whether this phase reads with the normalization probe asserted.
    pub open spec fn spec_is_probe(self) -> bool {
        self == MuxPhase::Cv1Probe || self == MuxPhase::Cv2Probe
    }

    pub fn is_probe(self) -> (b: bool)
        ensures
            b == self.spec_is_probe(),
    {
        match self {
            MuxPhase::Cv1Probe => true,
            MuxPhase::Cv2Probe => true,
            _ => false,
        }
    }

    /// The levels to drive on the two mux select lines at the start of this
    /// phase; a probe phase leaves the lines as the preceding phase set them.
    pub fn select_lines(self) -> (r: Option<(bool, bool)>)
        ensures
            r == (match self {
                MuxPhase::MainAndCv1 => Some((false, false)),
                MuxPhase::Cv1Probe => None::<(bool, bool)>,
                MuxPhase::XAndCv2 => Some((true, false)),
                MuxPhase::Cv2Probe => None::<(bool, bool)>,
                MuxPhase::YKnob => Some((false, true)),
                MuxPhase::ZRead => Some((true, true)),
            }),
    {
        match self {
            MuxPhase::MainAndCv1 => Some((false, false)),
            MuxPhase::Cv1Probe => None,
            MuxPhase::XAndCv2 => Some((true, false)),
            MuxPhase::Cv2Probe => None,
            MuxPhase::YKnob => Some((false, true)),
            MuxPhase::ZRead => Some((true, true)),
        }
    }

    /// Settle delay in microseconds before this phase's conversions: probe
    /// phases wait longer for the probe line to settle.
    pub fn settle_micros(self) -> (t: u64)
        ensures
            t == (if self.spec_is_probe() { 200int } else { 20int }),
    {
        if self.is_probe() {
            200
        } else {
            20
        }
    }

    /// Whether this phase performs a conversion on the second ADC channel.
    pub fn reads_io2(self) -> (b: bool)
        ensures
            b == (self == MuxPhase::MainAndCv1 || self == MuxPhase::Cv1Probe
                || self == MuxPhase::XAndCv2 || self == MuxPhase::Cv2Probe),
    {
        match self {
            MuxPhase::YKnob => false,
            MuxPhase::ZRead => false,
            _ => true,
        }
    }

    /// Whether this phase performs a conversion on the first ADC channel.
    pub fn reads_io1(self) -> (b: bool)
        ensures
            b == (!self.spec_is_probe()),
    {
        !self.is_probe()
    }
}

/// Relation between a stored value and the same slot after a phase that may
/// have refreshed it from reading `r`: a missing reading (a failed
/// conversion) leaves the previous value in place.
pub open spec fn refreshed(before: InputValue, after: InputValue, r: Option<u16>) -> bool {
    match r {
        Some(v) => after.inverted() == before.inverted() && after.accum() == spec_update_accum(
            before.inverted(),
            v,
        ),
        None => after == before,
    }
}

impl MuxState {
    /// The snapshot every cycle starts from: knobs centered, CV jacks
    /// centered and marked as inverted sources, switch off.
    pub fn default() -> (s: Self)
        ensures
            s.main_knob.accum() == 0 && !s.main_knob.inverted(),
            s.x_knob.accum() == 0 && !s.x_knob.inverted(),
            s.y_knob.accum() == 0 && !s.y_knob.inverted(),
            s.zswitch == ZSwitch::Off,
            s.cv1.raw.accum() == 0 && s.cv1.raw.inverted(),
            s.cv1.probe.accum() == 0 && s.cv1.probe.inverted(),
            s.cv2.raw.accum() == 0 && s.cv2.raw.inverted(),
            s.cv2.probe.accum() == 0 && s.cv2.probe.inverted(),
            s.sequence_counter == 0,
    {
        MuxState {
            main_knob: InputValue::new(InputValue::CENTER, false),
            x_knob: InputValue::new(InputValue::CENTER, false),
            y_knob: InputValue::new(InputValue::CENTER, false),
            zswitch: ZSwitch::default(),
            cv1: JackSample::new(
                InputValue::new(InputValue::CENTER, true),
                InputValue::new(InputValue::CENTER, true),
            ),
            cv2: JackSample::new(
                InputValue::new(InputValue::CENTER, true),
                InputValue::new(InputValue::CENTER, true),
            ),
            sequence_counter: 0,
        }
    }

    /// Start a new cycle: advance the wrapping sequence counter.
    pub fn begin_cycle(&mut self)
        ensures
            final(self).sequence_counter == (if old(self).sequence_counter == usize::MAX {
                0int
            } else {
                old(self).sequence_counter + 1
            }),
            final(self).main_knob == old(self).main_knob,
            final(self).x_knob == old(self).x_knob,
            final(self).y_knob == old(self).y_knob,
            final(self).zswitch == old(self).zswitch,
            final(self).cv1 == old(self).cv1,
            final(self).cv2 == old(self).cv2,
    {
        if self.sequence_counter == usize::MAX {
            self.sequence_counter = 0;
        } else {
            self.sequence_counter = self.sequence_counter + 1;
        }
    }

    /// Apply one phase's conversions to the snapshot. `io1` and `io2` carry
    /// the raw readings of the phase's conversions on the two ADC channels;
    /// a missing reading (a failed or absent conversion) leaves the previous
    /// value in place and the cycle still completes.
    pub fn apply_phase(&mut self, phase: MuxPhase, io1: Option<u16>, io2: Option<u16>)
        ensures
            final(self).sequence_counter == old(self).sequence_counter,
            match phase {
                MuxPhase::MainAndCv1 => {
                    &&& refreshed(old(self).main_knob, final(self).main_knob, io1)
                    &&& refreshed(old(self).cv1.raw, final(self).cv1.raw, io2)
                    &&& final(self).cv1.probe == old(self).cv1.probe
                    &&& final(self).x_knob == old(self).x_knob
                    &&& final(self).y_knob == old(self).y_knob
                    &&& final(self).cv2 == old(self).cv2
                    &&& final(self).zswitch == old(self).zswitch
                },
                MuxPhase::Cv1Probe => {
                    &&& refreshed(old(self).cv1.probe, final(self).cv1.probe, io2)
                    &&& final(self).cv1.raw == old(self).cv1.raw
                    &&& final(self).main_knob == old(self).main_knob
                    &&& final(self).x_knob == old(self).x_knob
                    &&& final(self).y_knob == old(self).y_knob
                    &&& final(self).cv2 == old(self).cv2
                    &&& final(self).zswitch == old(self).zswitch
                },
                MuxPhase::XAndCv2 => {
                    &&& refreshed(old(self).x_knob, final(self).x_knob, io1)
                    &&& refreshed(old(self).cv2.raw, final(self).cv2.raw, io2)
                    &&& final(self).cv2.probe == old(self).cv2.probe
                    &&& final(self).main_knob == old(self).main_knob
                    &&& final(self).y_knob == old(self).y_knob
                    &&& final(self).cv1 == old(self).cv1
                    &&& final(self).zswitch == old(self).zswitch
                },
                MuxPhase::Cv2Probe => {
                    &&& refreshed(old(self).cv2.probe, final(self).cv2.probe, io2)
                    &&& final(self).cv2.raw == old(self).cv2.raw
                    &&& final(self).main_knob == old(self).main_knob
                    &&& final(self).x_knob == old(self).x_knob
                    &&& final(self).y_knob == old(self).y_knob
                    &&& final(self).cv1 == old(self).cv1
                    &&& final(self).zswitch == old(self).zswitch
                },
                MuxPhase::YKnob => {
                    &&& refreshed(old(self).y_knob, final(self).y_knob, io1)
                    &&& final(self).main_knob == old(self).main_knob
                    &&& final(self).x_knob == old(self).x_knob
                    &&& final(self).cv1 == old(self).cv1
                    &&& final(self).cv2 == old(self).cv2
                    &&& final(self).zswitch == old(self).zswitch
                },
                MuxPhase::ZRead => {
                    &&& final(self).zswitch == (match io1 {
                        Some(v) => spec_zswitch_of(v),
                        None => old(self).zswitch,
                    })
                    &&& final(self).main_knob == old(self).main_knob
                    &&& final(self).x_knob == old(self).x_knob
                    &&& final(self).y_knob == old(self).y_knob
                    &&& final(self).cv1 == old(self).cv1
                    &&& final(self).cv2 == old(self).cv2
                },
            },
    {
        match phase {
            MuxPhase::MainAndCv1 => {
                if let Some(v) = io1 {
                    self.main_knob.update(v);
                }
                if let Some(v) = io2 {
                    self.cv1.raw.update(v);
                }
            },
            MuxPhase::Cv1Probe => {
                if let Some(v) = io2 {
                    self.cv1.probe.update(v);
                }
            },
            MuxPhase::XAndCv2 => {
                if let Some(v) = io1 {
                    self.x_knob.update(v);
                }
                if let Some(v) = io2 {
                    self.cv2.raw.update(v);
                }
            },
            MuxPhase::Cv2Probe => {
                if let Some(v) = io2 {
                    self.cv2.probe.update(v);
                }
            },
            MuxPhase::YKnob => {
                if let Some(v) = io1 {
                    self.y_knob.update(v);
                }
            },
            MuxPhase::ZRead => {
                if let Some(v) = io1 {
                    self.zswitch = zswitch_of_raw(v);
                }
            },
        }
    }
}

} // verus!
