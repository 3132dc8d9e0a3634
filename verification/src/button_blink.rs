//! A push button switches an LED between staying off and blinking.
//!
//! The button interrupt counts presses in a 16-bit counter that wraps around;
//! the main loop reads the count and keeps the LED off while it is even and
//! toggles it every 100 ms while it is odd.
use vstd::prelude::*;

verus! {

/// How long the LED waits between two toggles while blinking.
pub const BLINK_INTERVAL_MS: u8 = 100;

/// What the main loop does with the LED on one pass.
#[derive(Clone, Copy, Debug, PartialEq, Eq, Structural)]
pub enum BlinkAction {
    /// Drive the LED low.
    SwitchOff,
    /// Toggle the LED, then wait `BLINK_INTERVAL_MS`.
    ToggleAndWait,
}

/// The press count after one more press (the counter wraps from 65535 to 0).
pub open spec fn count_after_press(count: u16) -> u16 {
    ((count + 1) % 0x1_0000) as u16
}

/// The LED stays off for an even count and blinks for an odd one.
pub open spec fn action_for(count: u16) -> BlinkAction {
    if count % 2 == 0 {
        BlinkAction::SwitchOff
    } else {
        BlinkAction::ToggleAndWait
    }
}

/// Counts one press.
pub fn register_press(count: u16) -> (next: u16)
    ensures
        next == count_after_press(count),
{
    count.wrapping_add(1)
}

/// The LED action for the current press count.
pub fn blink_action(count: u16) -> (action: BlinkAction)
    ensures
        action == action_for(count),
{
    if count % 2 == 0 {
        BlinkAction::SwitchOff
    } else {
        BlinkAction::ToggleAndWait
    }
}

/// Every press switches between the two modes, also when the counter wraps
/// around.
pub proof fn lemma_press_switches_mode(count: u16)
    ensures
        action_for(count_after_press(count)) != action_for(count),
{
}

/// The press count after `n` more presses.
pub open spec fn count_after_presses(count: u16, n: nat) -> u16
    decreases n,
{
    if n == 0 {
        count
    } else {
        count_after_press(count_after_presses(count, (n - 1) as nat))
    }
}

/// After `n` presses the count is `(count + n) mod 2^16`, its parity is that
/// of `count + n`, and the LED mode has switched exactly when `n` is odd.
pub proof fn lemma_presses_count_modulo(count: u16, n: nat)
    ensures
        count_after_presses(count, n) == (count + n) % 0x1_0000,
        count_after_presses(count, n) % 2 == (count + n) % 2,
        (action_for(count_after_presses(count, n)) == action_for(count)) <==> n % 2 == 0,
    decreases n,
{
    if n > 0 {
        lemma_presses_count_modulo(count, (n - 1) as nat);
        let prev = count_after_presses(count, (n - 1) as nat);
        assert(((count + n - 1) % 0x1_0000 + 1) % 0x1_0000 == (count + n) % 0x1_0000) by {
            vstd::arithmetic::div_mod::lemma_add_mod_noop(count + n - 1, 1, 0x1_0000);
            vstd::arithmetic::div_mod::lemma_mod_twice(1, 0x1_0000);
        }
        assert(((count + n) % 0x1_0000) % 2 == (count + n) % 2) by {
            vstd::arithmetic::div_mod::lemma_mod_mod(count + n, 2, 0x8000);
        }
    }
}

} // verus!
