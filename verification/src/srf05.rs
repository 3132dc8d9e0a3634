//! SRF05 ultrasonic ranging by polling: a trigger pulse starts a measurement,
//! the echo line is sampled every `SAMPLING_PERIOD_US` microseconds while it is
//! high, and when it falls the number of high samples gives the echo time.
use vstd::prelude::*;

verus! {

/// Time between two samples of the echo line, in microseconds.
pub const SAMPLING_PERIOD_US: u32 = 5;

/// Length of the trigger pulse, in microseconds.
pub const TRIGGER_PULSE_US: u32 = 20;

/// Pause after a completed measurement, in milliseconds.
pub const PAUSE_AFTER_MEASUREMENT_MS: u32 = 1000;

/// The polling state: whether a measurement is under way and how many high
/// samples of the echo it has seen.
pub struct EchoCounter {
    pub measuring: bool,
    pub counter: u32,
}

impl EchoCounter {
    /// No measurement under way.
    pub fn new() -> (e: Self)
        ensures
            !e.measuring,
            e.counter == 0,
    {
        EchoCounter { measuring: false, counter: 0 }
    }

    /// Whether this pass starts with a trigger pulse.
    pub fn needs_trigger(&self) -> (b: bool)
        ensures
            b == !self.measuring,
    {
        !self.measuring
    }

    /// One pass, after the trigger pulse if `needs_trigger` asked for one:
    /// `echo_high` is the first sample of the echo line, `echo_low` the second.
    /// A high first sample counts; a low second sample after at least one
    /// count completes the measurement, returns the count and starts over.
    pub fn step(&mut self, echo_high: bool, echo_low: bool) -> (done: Option<u32>)
        requires
            echo_high ==> old(self).counter < u32::MAX,
        ensures
            ({
                let counted = old(self).counter + if echo_high {
                    1int
                } else {
                    0
                };
                if echo_low && counted > 0 {
                    &&& done == Some(counted as u32)
                    &&& !final(self).measuring
                    &&& final(self).counter == 0
                } else {
                    &&& done.is_none()
                    &&& final(self).measuring
                    &&& final(self).counter == counted
                }
            }),
    {
        if !self.measuring {
            self.measuring = true;
        }
        if self.measuring && echo_high {
            self.counter = self.counter + 1;
        }
        if echo_low && self.counter > 0 {
            let count = self.counter;
            self.measuring = false;
            self.counter = 0;
            Some(count)
        } else {
            None
        }
    }
}

/// Echo time in microseconds for `count` high samples.
pub fn echo_time_us(count: u32) -> (t: u32)
    requires
        count * SAMPLING_PERIOD_US <= u32::MAX,
    ensures
        t == count * SAMPLING_PERIOD_US,
{
    count * SAMPLING_PERIOD_US
}

} // verus!
