use vstd::prelude::*;
use crate::latest::LatestCell;
use crate::mux::MuxState;
use crate::signal::InputValue;

verus! {

/// One control-logic tick: if a fresh mux snapshot is available since the
/// last tick, publish its main knob as the new intensity; otherwise leave the
/// intensity untouched. The mapping is a deliberately thin pass-through.
pub fn logic_tick(
    mux: &mut LatestCell<MuxState>,
    mux_reader: usize,
    intensity: &mut LatestCell<InputValue>,
)
    requires
        mux_reader < old(mux).readers(),
    ensures
        final(mux).current() == old(mux).current(),
        final(mux).readers() == old(mux).readers(),
        ({
            let fresh = old(mux).current() is Some && !old(mux).seen_flags()[mux_reader as int];
            &&& fresh ==> {
                &&& final(intensity).current() == Some(old(mux).current()->Some_0.main_knob)
                &&& final(intensity).readers() == old(intensity).readers()
                &&& (forall|i: int|
                    0 <= i < old(intensity).readers() ==> !final(intensity).seen_flags()[i])
                &&& final(mux).seen_flags() == old(mux).seen_flags().update(
                    mux_reader as int,
                    true,
                )
            }
            &&& !fresh ==> {
                &&& *final(intensity) == *old(intensity)
                &&& final(mux).seen_flags() == old(mux).seen_flags()
            }
        }),
{
    if let Some(snapshot) = mux.try_get(mux_reader) {
        intensity.publish(snapshot.main_knob);
    }
}

} // verus!
