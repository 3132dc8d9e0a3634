//! Quadrature decoding of a rotary encoder with a reset button.
//!
//! Each pass of the polling loop samples the button, the CLK line and the DT
//! line (a line reads low while its contact is closed) and advances a state
//! machine; a full detent counts one step clockwise or anticlockwise.
use vstd::prelude::*;

verus! {

/// Where the decoder stands within one detent.
#[derive(Clone, Copy, Debug, PartialEq, Eq, Structural)]
pub enum RotaryEncoderStates {
    Idle,
    ClockwiseCLKFirst,
    ContinueClockwise,
    CompleteStepClockwise,
    AnticlockwiseDTFirst,
    ContinueAnticlockwise,
    CompleteStepAnticlockwise,
}

/// The decoder: its state and the step counter it maintains.
pub struct RotaryEncoder {
    pub state: RotaryEncoderStates,
    pub counter: i32,
}

/// The next state, given the levels of the CLK and DT lines.
pub open spec fn next_state(
    state: RotaryEncoderStates,
    clk_low: bool,
    dt_low: bool,
) -> RotaryEncoderStates {
    match state {
        RotaryEncoderStates::Idle => if clk_low {
            RotaryEncoderStates::ClockwiseCLKFirst
        } else if dt_low {
            RotaryEncoderStates::AnticlockwiseDTFirst
        } else {
            RotaryEncoderStates::Idle
        },
        RotaryEncoderStates::ClockwiseCLKFirst => if dt_low {
            RotaryEncoderStates::ContinueClockwise
        } else {
            state
        },
        RotaryEncoderStates::ContinueClockwise => if !clk_low {
            RotaryEncoderStates::CompleteStepClockwise
        } else {
            state
        },
        RotaryEncoderStates::CompleteStepClockwise => if !clk_low && !dt_low {
            RotaryEncoderStates::Idle
        } else {
            state
        },
        RotaryEncoderStates::AnticlockwiseDTFirst => if clk_low {
            RotaryEncoderStates::ContinueAnticlockwise
        } else {
            state
        },
        RotaryEncoderStates::ContinueAnticlockwise => if !dt_low {
            RotaryEncoderStates::CompleteStepAnticlockwise
        } else {
            state
        },
        RotaryEncoderStates::CompleteStepAnticlockwise => if !dt_low && !clk_low {
            RotaryEncoderStates::Idle
        } else {
            state
        },
    }
}

/// The change of the counter: one up when a clockwise detent completes, one
/// down when an anticlockwise one does, nothing otherwise.
pub open spec fn count_change(state: RotaryEncoderStates, clk_low: bool, dt_low: bool) -> int {
    match state {
        RotaryEncoderStates::CompleteStepClockwise => if !clk_low && !dt_low {
            1
        } else {
            0
        },
        RotaryEncoderStates::CompleteStepAnticlockwise => if !dt_low && !clk_low {
            -1
        } else {
            0
        },
        _ => 0,
    }
}

/// The counter after one pass: reset to zero while the button is held, then
/// moved by the detent that completes, if any.
pub open spec fn next_counter(
    state: RotaryEncoderStates,
    counter: int,
    button_low: bool,
    clk_low: bool,
    dt_low: bool,
) -> int {
    (if button_low {
        0
    } else {
        counter
    }) + count_change(state, clk_low, dt_low)
}

impl RotaryEncoder {
    /// A decoder at rest with the counter at zero.
    pub fn new() -> (e: Self)
        ensures
            e.state == RotaryEncoderStates::Idle,
            e.counter == 0,
    {
        RotaryEncoder { state: RotaryEncoderStates::Idle, counter: 0 }
    }

    /// Whether the counter stays within `i32` on this pass, which `step`
    /// requires.
    pub fn step_fits(&self, button_low: bool, clk_low: bool, dt_low: bool) -> (b: bool)
        ensures
            b == (i32::MIN <= next_counter(self.state, self.counter as int, button_low, clk_low, dt_low)
                <= i32::MAX),
    {
        let base: i64 = if button_low {
            0
        } else {
            self.counter as i64
        };
        let change: i64 = match self.state {
            RotaryEncoderStates::CompleteStepClockwise => if !clk_low && !dt_low {
                1
            } else {
                0
            },
            RotaryEncoderStates::CompleteStepAnticlockwise => if !dt_low && !clk_low {
                -1
            } else {
                0
            },
            _ => 0,
        };
        let next = base + change;
        i32::MIN as i64 <= next && next <= i32::MAX as i64
    }

    /// One pass of the polling loop on the sampled levels of the button and
    /// of the CLK and DT lines (`true` when the line reads low).
    pub fn step(&mut self, button_low: bool, clk_low: bool, dt_low: bool)
        requires
            i32::MIN <= next_counter(old(self).state, old(self).counter as int, button_low, clk_low, dt_low) <= i32::MAX,
        ensures
            final(self).state == next_state(old(self).state, clk_low, dt_low),
            final(self).counter == next_counter(
                old(self).state,
                old(self).counter as int,
                button_low,
                clk_low,
                dt_low,
            ),
    {
        if button_low {
            self.counter = 0;
        }
        match self.state {
            RotaryEncoderStates::Idle => {
                if clk_low {
                    self.state = RotaryEncoderStates::ClockwiseCLKFirst;
                } else if dt_low {
                    self.state = RotaryEncoderStates::AnticlockwiseDTFirst;
                }
            },
            RotaryEncoderStates::ClockwiseCLKFirst => {
                if dt_low {
                    self.state = RotaryEncoderStates::ContinueClockwise;
                }
            },
            RotaryEncoderStates::ContinueClockwise => {
                if !clk_low {
                    self.state = RotaryEncoderStates::CompleteStepClockwise;
                }
            },
            RotaryEncoderStates::CompleteStepClockwise => {
                if !clk_low && !dt_low {
                    self.state = RotaryEncoderStates::Idle;
                    self.counter = self.counter + 1;
                }
            },
            RotaryEncoderStates::AnticlockwiseDTFirst => {
                if clk_low {
                    self.state = RotaryEncoderStates::ContinueAnticlockwise;
                }
            },
            RotaryEncoderStates::ContinueAnticlockwise => {
                if !dt_low {
                    self.state = RotaryEncoderStates::CompleteStepAnticlockwise;
                }
            },
            RotaryEncoderStates::CompleteStepAnticlockwise => {
                if !dt_low && !clk_low {
                    self.state = RotaryEncoderStates::Idle;
                    self.counter = self.counter - 1;
                }
            },
        }
    }
}

/// Without the button, one pass moves the counter by at most one, and only
/// when the decoder returns to `Idle`.
pub proof fn lemma_counter_moves_only_on_completed_detent(
    state: RotaryEncoderStates,
    counter: int,
    clk_low: bool,
    dt_low: bool,
)
    ensures
        -1 <= next_counter(state, counter, false, clk_low, dt_low) - counter <= 1,
        next_counter(state, counter, false, clk_low, dt_low) != counter ==> next_state(
            state,
            clk_low,
            dt_low,
        ) == RotaryEncoderStates::Idle,
{
}

/// While the button is held the counter restarts at zero, so after the pass
/// it is -1, 0 or 1.
pub proof fn lemma_button_resets_counter(
    state: RotaryEncoderStates,
    counter: int,
    clk_low: bool,
    dt_low: bool,
)
    ensures
        -1 <= next_counter(state, counter, true, clk_low, dt_low) <= 1,
{
}

/// At rest, with both lines released, nothing changes.
pub proof fn lemma_idle_is_stable(counter: int)
    ensures
        next_state(RotaryEncoderStates::Idle, false, false) == RotaryEncoderStates::Idle,
        next_counter(RotaryEncoderStates::Idle, counter, false, false, false) == counter,
{
}

/// A clockwise detent — CLK closes, then DT, then CLK opens, then DT — takes
/// the decoder from `Idle` back to `Idle` and counts one up.
pub proof fn lemma_clockwise_detent_counts_up(counter: int)
    ensures
        ({
            let s1 = next_state(RotaryEncoderStates::Idle, true, false);
            let c1 = next_counter(RotaryEncoderStates::Idle, counter, false, true, false);
            let s2 = next_state(s1, true, true);
            let c2 = next_counter(s1, c1, false, true, true);
            let s3 = next_state(s2, false, true);
            let c3 = next_counter(s2, c2, false, false, true);
            let s4 = next_state(s3, false, false);
            let c4 = next_counter(s3, c3, false, false, false);
            s4 == RotaryEncoderStates::Idle && c4 == counter + 1
        }),
{
}

/// An anticlockwise detent — DT closes, then CLK, then DT opens, then CLK —
/// takes the decoder from `Idle` back to `Idle` and counts one down.
pub proof fn lemma_anticlockwise_detent_counts_down(counter: int)
    ensures
        ({
            let s1 = next_state(RotaryEncoderStates::Idle, false, true);
            let c1 = next_counter(RotaryEncoderStates::Idle, counter, false, false, true);
            let s2 = next_state(s1, true, true);
            let c2 = next_counter(s1, c1, false, true, true);
            let s3 = next_state(s2, true, false);
            let c3 = next_counter(s2, c2, false, true, false);
            let s4 = next_state(s3, false, false);
            let c4 = next_counter(s3, c3, false, false, false);
            s4 == RotaryEncoderStates::Idle && c4 == counter - 1
        }),
{
}

/// The state and counter after `k` passes with the button released and the
/// lines held at the same levels (the polling loop sees each level many
/// times).
pub open spec fn hold(
    state: RotaryEncoderStates,
    counter: int,
    clk_low: bool,
    dt_low: bool,
    k: nat,
) -> (RotaryEncoderStates, int)
    decreases k,
{
    if k == 0 {
        (state, counter)
    } else {
        hold(
            next_state(state, clk_low, dt_low),
            next_counter(state, counter, false, clk_low, dt_low),
            clk_low,
            dt_low,
            (k - 1) as nat,
        )
    }
}

/// Holding levels under which a state neither moves nor counts keeps it.
proof fn lemma_hold_at_rest(
    state: RotaryEncoderStates,
    counter: int,
    clk_low: bool,
    dt_low: bool,
    k: nat,
)
    requires
        next_state(state, clk_low, dt_low) == state,
        next_counter(state, counter, false, clk_low, dt_low) == counter,
    ensures
        hold(state, counter, clk_low, dt_low, k) == (state, counter),
    decreases k,
{
    if k > 0 {
        lemma_hold_at_rest(state, counter, clk_low, dt_low, (k - 1) as nat);
    }
}

/// A clockwise detent polled slowly — CLK closes, DT closes, CLK opens, DT
/// opens, each level seen on any number `k1`, `k2`, `k3`, `k4 >= 1` of
/// passes — takes the decoder from `Idle` back to `Idle` and counts exactly
/// one up. In particular the decoder waits in `CompleteStepClockwise`, without
/// counting, while DT is still closed.
pub proof fn lemma_slow_clockwise_detent_counts_up(
    counter: int,
    k1: nat,
    k2: nat,
    k3: nat,
    k4: nat,
)
    requires
        k1 >= 1,
        k2 >= 1,
        k3 >= 1,
        k4 >= 1,
    ensures
        next_state(RotaryEncoderStates::CompleteStepClockwise, false, true)
            == RotaryEncoderStates::CompleteStepClockwise,
        next_counter(RotaryEncoderStates::CompleteStepClockwise, counter, false, false, true)
            == counter,
        ({
            let (s1, c1) = hold(RotaryEncoderStates::Idle, counter, true, false, k1);
            let (s2, c2) = hold(s1, c1, true, true, k2);
            let (s3, c3) = hold(s2, c2, false, true, k3);
            let (s4, c4) = hold(s3, c3, false, false, k4);
            s4 == RotaryEncoderStates::Idle && c4 == counter + 1
        }),
{
    lemma_hold_at_rest(RotaryEncoderStates::ClockwiseCLKFirst, counter, true, false, (k1 - 1) as nat);
    lemma_hold_at_rest(RotaryEncoderStates::ContinueClockwise, counter, true, true, (k2 - 1) as nat);
    lemma_hold_at_rest(
        RotaryEncoderStates::CompleteStepClockwise,
        counter,
        false,
        true,
        (k3 - 1) as nat,
    );
    lemma_hold_at_rest(RotaryEncoderStates::Idle, counter + 1, false, false, (k4 - 1) as nat);
}

/// An anticlockwise detent polled slowly — DT closes, CLK closes, DT opens,
/// CLK opens, each level seen on any number `k1`, `k2`, `k3`, `k4 >= 1` of
/// passes — takes the decoder from `Idle` back to `Idle` and counts exactly
/// one down. In particular the decoder waits in `CompleteStepAnticlockwise`,
/// without counting, while CLK is still closed.
pub proof fn lemma_slow_anticlockwise_detent_counts_down(
    counter: int,
    k1: nat,
    k2: nat,
    k3: nat,
    k4: nat,
)
    requires
        k1 >= 1,
        k2 >= 1,
        k3 >= 1,
        k4 >= 1,
    ensures
        next_state(RotaryEncoderStates::CompleteStepAnticlockwise, true, false)
            == RotaryEncoderStates::CompleteStepAnticlockwise,
        next_counter(RotaryEncoderStates::CompleteStepAnticlockwise, counter, false, true, false)
            == counter,
        ({
            let (s1, c1) = hold(RotaryEncoderStates::Idle, counter, false, true, k1);
            let (s2, c2) = hold(s1, c1, true, true, k2);
            let (s3, c3) = hold(s2, c2, true, false, k3);
            let (s4, c4) = hold(s3, c3, false, false, k4);
            s4 == RotaryEncoderStates::Idle && c4 == counter - 1
        }),
{
    lemma_hold_at_rest(
        RotaryEncoderStates::AnticlockwiseDTFirst,
        counter,
        false,
        true,
        (k1 - 1) as nat,
    );
    lemma_hold_at_rest(
        RotaryEncoderStates::ContinueAnticlockwise,
        counter,
        true,
        true,
        (k2 - 1) as nat,
    );
    lemma_hold_at_rest(
        RotaryEncoderStates::CompleteStepAnticlockwise,
        counter,
        true,
        false,
        (k3 - 1) as nat,
    );
    lemma_hold_at_rest(RotaryEncoderStates::Idle, counter - 1, false, false, (k4 - 1) as nat);
}

} // verus!
