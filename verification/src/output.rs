use vstd::prelude::*;

verus! {

/// Bookkeeping of the fixed-rate sample output loop: a wrapping tick counter
/// published for rate diagnostics, and a rolling worst observed tick
/// duration that resets once per second of audio.
pub struct OutputTracker {
    counter: u32,
    max_ticks: u32,
}

impl OutputTracker {
    /// Ticks counted so far (wrapping).
    pub closed spec fn ticks(self) -> u32 {
        self.counter
    }

    /// The worst tick duration seen since the last per-second reset.
    pub closed spec fn worst(self) -> u32 {
        self.max_ticks
    }

    pub fn new() -> (t: Self)
        ensures
            t.ticks() == 0,
            t.worst() == 0,
    {
        OutputTracker { counter: 0, max_ticks: 0 }
    }

    /// Start a tick: advance the wrapping sample counter. Every sixteenth
    /// tick the counter is handed out to be published to the shared rate
    /// counter.
    pub fn begin_tick(&mut self) -> (publish: Option<u32>)
        ensures
            final(self).worst() == old(self).worst(),
            final(self).ticks() == (if old(self).ticks() == u32::MAX {
                0int
            } else {
                old(self).ticks() + 1
            }),
            publish == (if final(self).ticks() % 16 == 0 {
                Some(final(self).ticks())
            } else {
                None::<u32>
            }),
    {
        if self.counter == u32::MAX {
            self.counter = 0;
        } else {
            self.counter = self.counter + 1;
        }
        if self.counter % 16 == 0 {
            Some(self.counter)
        } else {
            None
        }
    }

    /// Finish a tick that took `elapsed` timer ticks: grow the rolling
    /// maximum, handing out a strictly larger value to be published by an
    /// atomic max. Once per second of audio (every 48000 ticks) the maximum
    /// resets to zero instead, so diagnostics see a per-second worst case.
    pub fn finish_tick(&mut self, elapsed: u32) -> (r: (Option<u32>, bool))
        ensures
            final(self).ticks() == old(self).ticks(),
            r.0 == (if elapsed > old(self).worst() {
                Some(elapsed)
            } else {
                None::<u32>
            }),
            r.1 == (old(self).ticks() % 48000 == 0),
            final(self).worst() == (if old(self).ticks() % 48000 == 0 {
                0int
            } else if elapsed > old(self).worst() {
                elapsed as int
            } else {
                old(self).worst() as int
            }),
    {
        let publish_max = if elapsed > self.max_ticks {
            self.max_ticks = elapsed;
            Some(elapsed)
        } else {
            None
        };
        let reset = self.counter % 48000 == 0;
        if reset {
            self.max_ticks = 0;
        }
        (publish_max, reset)
    }
}

} // verus!
