use hello_stm32::button_blink::{blink_action, register_press, BlinkAction};
use hello_stm32::can_test::{next_count, test_frame, CAN_TEST_ID};
use hello_stm32::line_tracker::tracker_report;
use hello_stm32::spi_test::{spi_reply, spi_test_pattern};
use hello_stm32::srf05::{echo_time_us, EchoCounter};

#[test]
fn press_count_wraps() {
    assert_eq!(register_press(0), 1);
    assert_eq!(register_press(65535), 0);
}

#[test]
fn blink_mode_follows_parity() {
    assert_eq!(blink_action(0), BlinkAction::SwitchOff);
    assert_eq!(blink_action(1), BlinkAction::ToggleAndWait);
    assert_eq!(blink_action(65535), BlinkAction::ToggleAndWait);
}

#[test]
fn every_press_switches_mode() {
    for count in [0u16, 1, 2, 1000, 65534, 65535] {
        assert_ne!(blink_action(register_press(count)), blink_action(count));
    }
}

#[test]
fn can_test_frame_contents() {
    let frame = test_frame(9);
    assert_eq!(CAN_TEST_ID, 0x500);
    assert_eq!(frame.id.as_raw(), 0x500);
    assert_eq!(frame.data, [9, 1, 2, 3, 4, 5, 6, 7]);
}

#[test]
fn many_presses_count_modulo() {
    let mut count: u16 = 65530;
    for n in 1..=10u32 {
        count = register_press(count);
        assert_eq!(count as u32, (65530 + n) % 65536);
        let expected = if n % 2 == 0 { blink_action(65530) } else { blink_action(65531) };
        assert_eq!(blink_action(count), expected);
    }
}

#[test]
fn can_counter_wraps() {
    assert_eq!(next_count(0), 1);
    assert_eq!(next_count(255), 0);
}

#[test]
fn echo_counter_measurement_cycle() {
    let mut e = EchoCounter::new();
    assert!(e.needs_trigger());
    assert_eq!(e.step(false, true), None);
    assert!(!e.needs_trigger());
    assert_eq!(e.step(true, false), None);
    assert_eq!(e.step(true, false), None);
    assert_eq!(e.counter, 2);
    assert_eq!(e.step(true, true), Some(3));
    assert!(e.needs_trigger());
    assert_eq!(e.counter, 0);
}

#[test]
fn echo_counter_waits_for_first_high_sample() {
    let mut e = EchoCounter::new();
    assert_eq!(e.step(false, true), None);
    assert_eq!(e.step(false, true), None);
    assert!(e.measuring);
    assert_eq!(e.counter, 0);
}

#[test]
fn echo_time_scales_by_sampling_period() {
    assert_eq!(echo_time_us(0), 0);
    assert_eq!(echo_time_us(1200), 6000);
}

#[test]
fn spi_pattern_and_reply() {
    assert_eq!(spi_test_pattern(), [0x1A2B, 0x3C4D, 0xFF11, 0x1001]);
    assert_eq!(spi_reply(0), 1);
    assert_eq!(spi_reply(254), 255);
}

#[test]
fn tracker_reports() {
    assert_eq!(tracker_report(true), "tracker is on line");
    assert_eq!(tracker_report(false), "tracker is not on line");
}
