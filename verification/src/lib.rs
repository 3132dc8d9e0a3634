//! Host-independent logic of a set of STM32 board programs: MS8607
//! pressure/temperature/humidity compensation, a rotary-encoder decoder, a
//! button-driven blink mode, CAN test frames, an ultrasonic echo counter and
//! a length-prefixed UART link.
use vstd::prelude::*;

pub mod ms8607;
pub mod rotary_encoder;
pub mod button_blink;
pub mod can_test;
pub mod srf05;
pub mod uart_link;
pub mod spi_test;
pub mod line_tracker;

verus! {

} // verus!
