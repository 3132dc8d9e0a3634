use hello_stm32::rotary_encoder::{RotaryEncoder, RotaryEncoderStates};

fn feed(encoder: &mut RotaryEncoder, button_low: bool, clk_low: bool, dt_low: bool) {
    assert!(encoder.step_fits(button_low, clk_low, dt_low));
    encoder.step(button_low, clk_low, dt_low);
}

#[test]
fn clockwise_detent_counts_up() {
    let mut e = RotaryEncoder::new();
    feed(&mut e, false, true, false);
    assert_eq!(e.state, RotaryEncoderStates::ClockwiseCLKFirst);
    feed(&mut e, false, true, true);
    assert_eq!(e.state, RotaryEncoderStates::ContinueClockwise);
    feed(&mut e, false, false, true);
    assert_eq!(e.state, RotaryEncoderStates::CompleteStepClockwise);
    assert_eq!(e.counter, 0);
    feed(&mut e, false, false, false);
    assert_eq!(e.state, RotaryEncoderStates::Idle);
    assert_eq!(e.counter, 1);
}

#[test]
fn anticlockwise_detent_counts_down() {
    let mut e = RotaryEncoder::new();
    feed(&mut e, false, false, true);
    assert_eq!(e.state, RotaryEncoderStates::AnticlockwiseDTFirst);
    feed(&mut e, false, true, true);
    assert_eq!(e.state, RotaryEncoderStates::ContinueAnticlockwise);
    feed(&mut e, false, true, false);
    assert_eq!(e.state, RotaryEncoderStates::CompleteStepAnticlockwise);
    feed(&mut e, false, false, false);
    assert_eq!(e.state, RotaryEncoderStates::Idle);
    assert_eq!(e.counter, -1);
}

#[test]
fn idle_with_lines_released_stays_put() {
    let mut e = RotaryEncoder::new();
    for _ in 0..5 {
        feed(&mut e, false, false, false);
    }
    assert_eq!(e.state, RotaryEncoderStates::Idle);
    assert_eq!(e.counter, 0);
}

#[test]
fn incomplete_detent_waits() {
    let mut e = RotaryEncoder::new();
    feed(&mut e, false, true, false);
    feed(&mut e, false, true, false);
    assert_eq!(e.state, RotaryEncoderStates::ClockwiseCLKFirst);
    feed(&mut e, false, true, true);
    // CLK still closed: no progress
    feed(&mut e, false, true, true);
    assert_eq!(e.state, RotaryEncoderStates::ContinueClockwise);
    assert_eq!(e.counter, 0);
}

#[test]
fn button_resets_counter() {
    let mut e = RotaryEncoder { state: RotaryEncoderStates::Idle, counter: 42 };
    feed(&mut e, true, false, false);
    assert_eq!(e.counter, 0);
    let mut e = RotaryEncoder { state: RotaryEncoderStates::CompleteStepClockwise, counter: 42 };
    feed(&mut e, true, false, false);
    assert_eq!(e.counter, 1);
}

#[test]
fn counter_at_limit_does_not_fit() {
    let e = RotaryEncoder { state: RotaryEncoderStates::CompleteStepClockwise, counter: i32::MAX };
    assert!(!e.step_fits(false, false, false));
    assert!(e.step_fits(false, true, false));
    assert!(e.step_fits(true, false, false));
    let e = RotaryEncoder { state: RotaryEncoderStates::CompleteStepAnticlockwise, counter: i32::MIN };
    assert!(!e.step_fits(false, false, false));
}
