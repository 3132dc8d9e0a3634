# hello_stm32

Small STM32 (Nucleo) board programs, split into a verified library and the
firmware around it.

- `src/` — the library, verified with Verus:
  - `ms8607`: MS8607 command bytes, decoding of ADC and PROM words, integer
    temperature/pressure/humidity compensation with exact overflow conditions;
  - `rotary_encoder`: quadrature decoding state machine and step counter;
  - `button_blink`: press counting and the LED mode it selects;
  - `can_test`: CAN test frames (identifier checked with `bxcan`);
  - `srf05`: polling state of the ultrasonic echo measurement;
  - `uart_link`: length-prefixed framing (built in postcard's `HVec`),
    reception and echo-time-to-distance conversion;
  - `spi_test`, `line_tracker`: the SPI test data and the tracker report.
- `tests/` — tests of the library on concrete values.
- `app/` — the firmware: peripheral setup, I2C/SPI/UART/CAN traffic, RTT
  printing and the floating-point conversions, calling the library.
