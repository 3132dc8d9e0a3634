//! MS8607 sensor: command bytes, decoding of the raw words the sensor sends,
//! and the integer compensation of temperature, pressure and humidity.
use vstd::prelude::*;
use vstd::arithmetic::power2::{pow2, lemma_pow2_unfold, lemma_pow2_pos};
use vstd::arithmetic::div_mod::{lemma_fundamental_div_mod, lemma_fundamental_div_mod_converse};

verus! {

/// I2C address of the pressure/temperature part.
pub const PT_ADDRESS: u8 = 0x76;

pub const PT_COMMAND_RESET: u8 = 0x1E;

/// ADC time 0.56 ms.
pub const PT_COMMAND_INITIATE_PRESSURE_CONVERSION_OSR_256: u8 = 0x40;

/// ADC time 1.10 ms.
pub const PT_COMMAND_INITIATE_PRESSURE_CONVERSION_OSR_512: u8 = 0x42;

/// ADC time 2.17 ms.
pub const PT_COMMAND_INITIATE_PRESSURE_CONVERSION_OSR_1024: u8 = 0x44;

/// ADC time 4.30 ms.
pub const PT_COMMAND_INITIATE_PRESSURE_CONVERSION_OSR_2048: u8 = 0x46;

/// ADC time 8.61 ms.
pub const PT_COMMAND_INITIATE_PRESSURE_CONVERSION_OSR_4096: u8 = 0x48;

/// ADC time 17.2 ms.
pub const PT_COMMAND_INITIATE_PRESSURE_CONVERSION_OSR_8192: u8 = 0x4A;

/// ADC time 0.56 ms.
pub const PT_COMMAND_INITIATE_TEMPERATURE_CONVERSION_OSR_256: u8 = 0x50;

/// ADC time 1.10 ms.
pub const PT_COMMAND_INITIATE_TEMPERATURE_CONVERSION_OSR_512: u8 = 0x52;

/// ADC time 2.17 ms.
pub const PT_COMMAND_INITIATE_TEMPERATURE_CONVERSION_OSR_1024: u8 = 0x54;

/// ADC time 4.30 ms.
pub const PT_COMMAND_INITIATE_TEMPERATURE_CONVERSION_OSR_2048: u8 = 0x56;

/// ADC time 8.61 ms.
pub const PT_COMMAND_INITIATE_TEMPERATURE_CONVERSION_OSR_4096: u8 = 0x58;

/// ADC time 17.2 ms.
pub const PT_COMMAND_INITIATE_TEMPERATURE_CONVERSION_OSR_8192: u8 = 0x5A;

pub const PT_COMMAND_READ_VALUE: u8 = 0x00;

pub const PT_COMMAND_PROM_READ_CRC: u8 = 0xA0;

pub const PT_COMMAND_PROM_READ_PRESSURE_SENSITIVITY: u8 = 0xA2;

pub const PT_COMMAND_PROM_READ_PRESSURE_OFFSET: u8 = 0xA4;

pub const PT_COMMAND_PROM_READ_TEMPERATURE_COEFFICIENT_PRESSURE_SENSITIVITY: u8 = 0xA6;

pub const PT_COMMAND_PROM_READ_TEMPERATURE_COEFFICIENT_PRESSURE_OFFSET: u8 = 0xA8;

pub const PT_COMMAND_PROM_READ_REFERENCE_TEMPERATURE: u8 = 0xAA;

pub const PT_COMMAND_PROM_READ_TEMPERATURE_COEFFICIENT_TEMPERATURE: u8 = 0xAC;

/// I2C address of the relative-humidity part.
pub const RH_ADDRESS: u8 = 0x40;

pub const RH_COMMAND_RESET: u8 = 0xFE;

pub const RH_COMMAND_WRITE_USER_REGISTER: u8 = 0xE6;

pub const RH_COMMAND_READ_USER_REGISTER: u8 = 0xE7;

pub const RH_COMMAND_MEASURE_HUMIDITY_HOLD: u8 = 0xE5;

pub const RH_COMMAND_MEASURE_HUMIDITY_NO_HOLD: u8 = 0xF5;

pub const RH_COMMAND_PROM_READ_0: u8 = 0xA0;

pub const RH_COMMAND_PROM_READ_1: u8 = 0xA2;

pub const RH_COMMAND_PROM_READ_2: u8 = 0xA4;

pub const RH_COMMAND_PROM_READ_3: u8 = 0xA6;

pub const RH_COMMAND_PROM_READ_4: u8 = 0xA8;

pub const RH_COMMAND_PROM_READ_5: u8 = 0xAA;

pub const RH_COMMAND_PROM_READ_6: u8 = 0xAC;

/// Factory calibration coefficients C1..C6 of the pressure/temperature part.
#[derive(Debug)]
pub struct CalibrationData {
    pub pressure_sensitivity: i64,
    pub pressure_offset: i64,
    pub temperature_coefficient_pressure_sensitivity: i64,
    pub temperature_coefficient_pressure_offset: i64,
    pub reference_temperature: i64,
    pub temperature_coefficient_temperature: i64,
}

impl CalibrationData {
    /// Every coefficient is an unsigned 16-bit word, as the sensor's PROM
    /// supplies it.
    pub open spec fn is_prom_word_set(&self) -> bool {
        &&& 0 <= self.pressure_sensitivity <= 0xFFFF
        &&& 0 <= self.pressure_offset <= 0xFFFF
        &&& 0 <= self.temperature_coefficient_pressure_sensitivity <= 0xFFFF
        &&& 0 <= self.temperature_coefficient_pressure_offset <= 0xFFFF
        &&& 0 <= self.reference_temperature <= 0xFFFF
        &&& 0 <= self.temperature_coefficient_temperature <= 0xFFFF
    }
}

impl Default for CalibrationData {
    fn default() -> (r: Self)
        ensures
            r.pressure_sensitivity == 0,
            r.pressure_offset == 0,
            r.temperature_coefficient_pressure_sensitivity == 0,
            r.temperature_coefficient_pressure_offset == 0,
            r.reference_temperature == 0,
            r.temperature_coefficient_temperature == 0,
    {
        CalibrationData {
            pressure_sensitivity: 0,
            pressure_offset: 0,
            temperature_coefficient_pressure_sensitivity: 0,
            temperature_coefficient_pressure_offset: 0,
            reference_temperature: 0,
            temperature_coefficient_temperature: 0,
        }
    }
}

/// The big-endian value of a two-byte word.
pub open spec fn be_word(b: [u8; 2]) -> int {
    b[0] * 256 + b[1]
}

/// `dT = D2 - (C5 << 8)`, the shift taken on `i64` as the computation does
/// (for a PROM coefficient it is `C5 * 2^8`).
pub open spec fn temperature_delta(raw_temperature: u32, cal: CalibrationData) -> int {
    raw_temperature - (cal.reference_temperature << 8u32)
}

/// `TEMP = 2000 + dT * C6 / 2^23` (hundredths of a degree Celsius, division
/// rounding down).
pub open spec fn first_order_temperature(raw_temperature: u32, cal: CalibrationData) -> int {
    2000 + (temperature_delta(raw_temperature, cal) * cal.temperature_coefficient_temperature)
        / 0x80_0000
}

/// Second-order correction `T2`: `3 dT^2 / 2^33` below 20 degrees Celsius,
/// `5 dT^2 / 2^38` from there on.
pub open spec fn second_order_temperature(raw_temperature: u32, cal: CalibrationData) -> int {
    let d = temperature_delta(raw_temperature, cal);
    if first_order_temperature(raw_temperature, cal) < 2000 {
        (3 * d * d) / 0x2_0000_0000
    } else {
        (5 * d * d) / 0x40_0000_0000
    }
}

/// Compensated temperature in hundredths of a degree Celsius.
pub open spec fn compensated_temperature(raw_temperature: u32, cal: CalibrationData) -> int {
    first_order_temperature(raw_temperature, cal) - second_order_temperature(raw_temperature, cal)
}

pub open spec fn fits_i64(x: int) -> bool {
    i64::MIN <= x <= i64::MAX
}

/// The temperature computation stays within `i64` at every step.
pub open spec fn temperature_computable(raw_temperature: u32, cal: CalibrationData) -> bool {
    let d = temperature_delta(raw_temperature, cal);
    &&& fits_i64(d)
    &&& fits_i64(d * cal.temperature_coefficient_temperature)
    &&& if first_order_temperature(raw_temperature, cal) < 2000 {
        fits_i64(3 * d) && fits_i64(3 * d * d)
    } else {
        fits_i64(5 * d) && fits_i64(5 * d * d)
    }
}

/// `OFF = (C2 << 17) + C4 * dT / 2^6`, the shift taken on `i64` (for a PROM
/// coefficient it is `C2 * 2^17`).
pub open spec fn pressure_offset(raw_temperature: u32, cal: CalibrationData) -> int {
    (cal.pressure_offset << 17u32) + (cal.temperature_coefficient_pressure_offset
        * temperature_delta(raw_temperature, cal)) / 64
}

/// `SENS = (C1 << 16) + C3 * dT / 2^7`, the shift taken on `i64` (for a PROM
/// coefficient it is `C1 * 2^16`).
pub open spec fn pressure_sensitivity(raw_temperature: u32, cal: CalibrationData) -> int {
    (cal.pressure_sensitivity << 16u32) + (cal.temperature_coefficient_pressure_sensitivity
        * temperature_delta(raw_temperature, cal)) / 128
}

/// The computation writes `D1 * SENS >> 21 - OFF`, which Rust reads as a
/// right shift by `21 - OFF`.
pub open spec fn pressure_shift(raw_temperature: u32, cal: CalibrationData) -> int {
    21 - pressure_offset(raw_temperature, cal)
}

/// `(D1 * SENS) / 2^(21 - OFF) / 2^15`, each division rounding down.
pub open spec fn compensated_pressure(
    raw_pressure: u32,
    raw_temperature: u32,
    cal: CalibrationData,
) -> int {
    (raw_pressure * pressure_sensitivity(raw_temperature, cal)) / (pow2(
        pressure_shift(raw_temperature, cal) as nat,
    ) as int) / 0x8000
}

/// The pressure computation stays within `i64` at every step, and its
/// variable shift amount lies in `0..64`.
pub open spec fn pressure_computable(
    raw_pressure: u32,
    raw_temperature: u32,
    cal: CalibrationData,
) -> bool {
    let d = temperature_delta(raw_temperature, cal);
    &&& fits_i64(d)
    &&& fits_i64(cal.temperature_coefficient_pressure_offset * d)
    &&& fits_i64(pressure_offset(raw_temperature, cal))
    &&& fits_i64(cal.temperature_coefficient_pressure_sensitivity * d)
    &&& fits_i64(pressure_sensitivity(raw_temperature, cal))
    &&& fits_i64(raw_pressure * pressure_sensitivity(raw_temperature, cal))
    &&& 0 <= pressure_shift(raw_temperature, cal) < 64
}

/// Relative humidity in percent from the 16-bit humidity word:
/// `-6 + 125 * S / 2^16`, the division rounding down.
pub open spec fn relative_humidity(word: int) -> int {
    word * 125 / 0x1_0000 - 6
}

/// Halving a quotient that rounds down is dividing by twice the divisor.
proof fn lemma_floor_div_halved(x: int, c: int)
    requires
        c > 0,
    ensures
        (x / c) / 2 == x / (c * 2),
{
    let q = x / c;
    let r = x % c;
    lemma_fundamental_div_mod(x, c);
    let q2 = q / 2;
    let r2 = q % 2;
    lemma_fundamental_div_mod(q, 2);
    assert(x == (c * 2) * q2 + (c * r2 + r)) by (nonlinear_arith)
        requires
            x == c * q + r,
            q == 2 * q2 + r2,
    ;
    assert(0 <= c * r2 + r < c * 2) by (nonlinear_arith)
        requires
            0 <= r < c,
            0 <= r2 < 2,
    ;
    lemma_fundamental_div_mod_converse(x, c * 2, q2, c * r2 + r);
}

/// An arithmetic right shift of an `i64` divides by a power of two, rounding
/// down.
pub proof fn lemma_i64_shr_is_floor_div(x: i64, s: u32)
    requires
        s < 64,
    ensures
        x >> s == (x as int) / (pow2(s as nat) as int),
    decreases s,
{
    if s == 0 {
        assert(x >> 0u32 == x) by (bit_vector);
        assert(pow2(0) == 1) by {
            vstd::arithmetic::power2::lemma2_to64();
        }
    } else {
        let t: u32 = (s - 1) as u32;
        lemma_i64_shr_is_floor_div(x, t);
        let y = x >> t;
        assert(x >> s == (x >> t) >> 1u32) by (bit_vector)
            requires
                0 < s < 64,
                t == s - 1,
        ;
        assert(y >> 1u32 == y / 2) by (bit_vector);
        lemma_pow2_unfold(s as nat);
        lemma_pow2_pos(t as nat);
        lemma_floor_div_halved(x as int, pow2(t as nat) as int);
    }
}

/// For a PROM coefficient the `i64` shift in `dT` is a multiplication.
proof fn lemma_prom_reference_shift(cal: CalibrationData)
    requires
        cal.is_prom_word_set(),
    ensures
        cal.reference_temperature << 8u32 == cal.reference_temperature * 256,
        cal.pressure_offset << 17u32 == cal.pressure_offset * 0x2_0000,
        cal.pressure_sensitivity << 16u32 == cal.pressure_sensitivity * 0x1_0000,
{
    let c5 = cal.reference_temperature;
    let c2 = cal.pressure_offset;
    let c1 = cal.pressure_sensitivity;
    assert(0 <= c5 <= 0xFFFF ==> c5 << 8u32 == c5 * 256) by (bit_vector);
    assert(0 <= c2 <= 0xFFFF ==> c2 << 17u32 == c2 * 0x2_0000) by (bit_vector);
    assert(0 <= c1 <= 0xFFFF ==> c1 << 16u32 == c1 * 0x1_0000) by (bit_vector);
}

/// With calibration words from the sensor's PROM and a 24-bit temperature
/// reading (what the ADC delivers), the temperature computation never leaves
/// `i64`, and `dT` is the datasheet's `D2 - C5 * 2^8`.
pub proof fn lemma_sensor_temperature_computable(raw_temperature: u32, cal: CalibrationData)
    requires
        cal.is_prom_word_set(),
        raw_temperature < 0x100_0000,
    ensures
        temperature_delta(raw_temperature, cal) == raw_temperature - cal.reference_temperature
            * 256,
        temperature_computable(raw_temperature, cal),
{
    lemma_prom_reference_shift(cal);
    let d = temperature_delta(raw_temperature, cal);
    let c6 = cal.temperature_coefficient_temperature;
    assert(-0x100_0000 < d < 0x100_0000);
    assert(-0x1_0000_0000_0000 < d * c6 < 0x1_0000_0000_0000) by (nonlinear_arith)
        requires
            -0x100_0000 < d < 0x100_0000,
            0 <= c6 <= 0xFFFF,
    ;
    assert(0 <= 5 * d * d < 0x10_0000_0000_0000) by (nonlinear_arith)
        requires
            -0x100_0000 < d < 0x100_0000,
    ;
    assert(0 <= 3 * d * d < 0x10_0000_0000_0000) by (nonlinear_arith)
        requires
            -0x100_0000 < d < 0x100_0000,
    ;
}

/// The compensated temperature for sensor data, in the datasheet's terms:
/// with `dT = D2 - C5 * 256` and `TEMP = 2000 + dT * C6 / 2^23`, the result is
/// `TEMP - 3 dT^2 / 2^33` when `TEMP` is below 2000 (20 degrees Celsius) and
/// `TEMP - 5 dT^2 / 2^38` from 2000 on, each division rounding down.
pub proof fn lemma_sensor_temperature_formula(raw_temperature: u32, cal: CalibrationData)
    requires
        cal.is_prom_word_set(),
        raw_temperature < 0x100_0000,
    ensures
        temperature_computable(raw_temperature, cal),
        ({
            let d = raw_temperature - cal.reference_temperature * 256;
            let t1 = 2000 + (d * cal.temperature_coefficient_temperature) / 0x80_0000;
            compensated_temperature(raw_temperature, cal) == if t1 < 2000 {
                t1 - (3 * d * d) / 0x2_0000_0000
            } else {
                t1 - (5 * d * d) / 0x40_0000_0000
            }
        }),
{
    lemma_sensor_temperature_computable(raw_temperature, cal);
}

/// With calibration words from the sensor's PROM and 24-bit readings, every
/// step of the pressure computation stays within `i64`; whether it can be
/// carried out depends only on its shift amount `21 - OFF` lying in `0..64`.
pub proof fn lemma_sensor_pressure_computable_iff_shift(
    raw_pressure: u32,
    raw_temperature: u32,
    cal: CalibrationData,
)
    requires
        cal.is_prom_word_set(),
        raw_pressure < 0x100_0000,
        raw_temperature < 0x100_0000,
    ensures
        pressure_computable(raw_pressure, raw_temperature, cal) <==> 0 <= pressure_shift(
            raw_temperature,
            cal,
        ) < 64,
        pressure_offset(raw_temperature, cal) == cal.pressure_offset * 0x2_0000 + (
        cal.temperature_coefficient_pressure_offset * (raw_temperature
            - cal.reference_temperature * 256)) / 64,
        pressure_sensitivity(raw_temperature, cal) == cal.pressure_sensitivity * 0x1_0000 + (
        cal.temperature_coefficient_pressure_sensitivity * (raw_temperature
            - cal.reference_temperature * 256)) / 128,
{
    lemma_prom_reference_shift(cal);
    let d = temperature_delta(raw_temperature, cal);
    let c4 = cal.temperature_coefficient_pressure_offset;
    let c3 = cal.temperature_coefficient_pressure_sensitivity;
    assert(-0x100_0000 < d < 0x100_0000);
    assert(-0x1_0000_0000_0000 < c4 * d < 0x1_0000_0000_0000) by (nonlinear_arith)
        requires
            -0x100_0000 < d < 0x100_0000,
            0 <= c4 <= 0xFFFF,
    ;
    assert(-0x1_0000_0000_0000 < c3 * d < 0x1_0000_0000_0000) by (nonlinear_arith)
        requires
            -0x100_0000 < d < 0x100_0000,
            0 <= c3 <= 0xFFFF,
    ;
    let sens = pressure_sensitivity(raw_temperature, cal);
    assert(-0x100_0000_0000 < c3 * d < 0x100_0000_0000) by (nonlinear_arith)
        requires
            -0x100_0000 < d < 0x100_0000,
            0 <= c3 <= 0xFFFF,
    ;
    assert(-0x4_0000_0000 < sens < 0x4_0000_0000);
    assert(-0x400_0000_0000_0000 < raw_pressure * sens < 0x400_0000_0000_0000)
        by (nonlinear_arith)
        requires
            -0x4_0000_0000 < sens < 0x4_0000_0000,
            0 <= raw_pressure < 0x100_0000,
    ;
}

/// Reads a 24-bit ADC result from the three bytes the sensor sends, most
/// significant byte first.
pub fn pt_value_from_bytes(buffer: [u8; 3]) -> (value: u32)
    ensures
        value == buffer[0] * 0x1_0000 + buffer[1] * 0x100 + buffer[2],
        value < 0x100_0000,
{
    let b0 = buffer[0];
    let b1 = buffer[1];
    let b2 = buffer[2];
    let value = ((b0 as u32) << 16u32) | ((b1 as u32) << 8u32) | (b2 as u32);
    assert(((b0 as u32) << 16u32) | ((b1 as u32) << 8u32) | (b2 as u32) == (b0 as u32) * 0x1_0000
        + (b1 as u32) * 0x100 + (b2 as u32)) by (bit_vector);
    value
}

/// Compensated temperature in hundredths of a degree Celsius, from the raw
/// temperature reading and the calibration coefficients.
pub fn compensate_temperature(raw_temperature: u32, calibration_data: &CalibrationData) -> (t: i64)
    requires
        temperature_computable(raw_temperature, *calibration_data),
    ensures
        t == compensated_temperature(raw_temperature, *calibration_data),
        ({
            let d = raw_temperature - (calibration_data.reference_temperature << 8u32);
            let t1 = 2000 + (d * calibration_data.temperature_coefficient_temperature) / 0x80_0000;
            t == if t1 < 2000 {
                t1 - (3 * d * d) / 0x2_0000_0000
            } else {
                t1 - (5 * d * d) / 0x40_0000_0000
            }
        }),
{
    let ghost cal = *calibration_data;
    let delta = raw_temperature as i64 - (calibration_data.reference_temperature << 8u32);
    let product = delta * calibration_data.temperature_coefficient_temperature;
    let scaled = product >> 23u32;
    assert(scaled == product / 0x80_0000) by (bit_vector)
        requires
            scaled == product >> 23u32,
    ;
    assert(-0x100_0000_0000 <= scaled <= 0x100_0000_0000);
    let temperature_1 = 2000 + scaled;
    let temperature_2 = if temperature_1 < 2000 {
        let square = 3 * delta * delta;
        assert(square >= 0) by (nonlinear_arith)
            requires
                square == 3 * delta * delta,
        ;
        let t2 = square >> 33u32;
        assert(t2 == square / 0x2_0000_0000) by (bit_vector)
            requires
                t2 == square >> 33u32,
        ;
        assert(0 <= t2 <= 0x4000_0000);
        t2
    } else {
        let square = 5 * delta * delta;
        assert(square >= 0) by (nonlinear_arith)
            requires
                square == 5 * delta * delta,
        ;
        let t2 = square >> 38u32;
        assert(t2 == square / 0x40_0000_0000) by (bit_vector)
            requires
                t2 == square >> 38u32,
        ;
        assert(0 <= t2 <= 0x4000_0000);
        t2
    };
    temperature_1 - temperature_2
}

/// Whether `compensate_temperature` can be carried out on these inputs
/// without leaving `i64`.
pub fn can_compensate_temperature(raw_temperature: u32, calibration_data: &CalibrationData) -> (b:
    bool)
    ensures
        b == temperature_computable(raw_temperature, *calibration_data),
{
    let delta = match (raw_temperature as i64).checked_sub(
        calibration_data.reference_temperature << 8u32,
    ) {
        Some(d) => d,
        None => return false,
    };
    let product = match delta.checked_mul(calibration_data.temperature_coefficient_temperature) {
        Some(p) => p,
        None => return false,
    };
    let scaled = product >> 23u32;
    assert(scaled == product / 0x80_0000) by (bit_vector)
        requires
            scaled == product >> 23u32,
    ;
    let factor: i64 = if 2000 + scaled < 2000 {
        3
    } else {
        5
    };
    match factor.checked_mul(delta) {
        Some(k) => k.checked_mul(delta).is_some(),
        None => false,
    }
}

/// Compensated pressure, from the raw pressure and temperature readings and
/// the calibration coefficients.
pub fn compensate_pressure(
    raw_pressure: u32,
    raw_temperature: u32,
    calibration_data: &CalibrationData,
) -> (p: i64)
    requires
        pressure_computable(raw_pressure, raw_temperature, *calibration_data),
    ensures
        p == compensated_pressure(raw_pressure, raw_temperature, *calibration_data),
{
    let temperature_delta = raw_temperature as i64 - (calibration_data.reference_temperature
        << 8u32);
    let offset_product = calibration_data.temperature_coefficient_pressure_offset
        * temperature_delta;
    let offset_term = offset_product >> 6u32;
    assert(offset_term == offset_product / 64) by (bit_vector)
        requires
            offset_term == offset_product >> 6u32,
    ;
    let offset_1 = (calibration_data.pressure_offset << 17u32) + offset_term;
    let sensitivity_product = calibration_data.temperature_coefficient_pressure_sensitivity
        * temperature_delta;
    let sensitivity_term = sensitivity_product >> 7u32;
    assert(sensitivity_term == sensitivity_product / 128) by (bit_vector)
        requires
            sensitivity_term == sensitivity_product >> 7u32,
    ;
    let sensitivity_1 = (calibration_data.pressure_sensitivity << 16u32) + sensitivity_term;
    let scaled = (raw_pressure as i64) * sensitivity_1;
    let shift = (21 - offset_1) as u32;
    let shifted = scaled >> shift;
    proof {
        lemma_i64_shr_is_floor_div(scaled, shift);
    }
    let pressure = shifted >> 15u32;
    assert(pressure == shifted / 0x8000) by (bit_vector)
        requires
            pressure == shifted >> 15u32,
    ;
    pressure
}

/// Whether `compensate_pressure` can be carried out on these inputs: every
/// step stays within `i64` and the shift amount `21 - OFF` lies in `0..64`.
pub fn can_compensate_pressure(
    raw_pressure: u32,
    raw_temperature: u32,
    calibration_data: &CalibrationData,
) -> (b: bool)
    ensures
        b == pressure_computable(raw_pressure, raw_temperature, *calibration_data),
{
    let delta = match (raw_temperature as i64).checked_sub(
        calibration_data.reference_temperature << 8u32,
    ) {
        Some(d) => d,
        None => return false,
    };
    let offset_product = match calibration_data.temperature_coefficient_pressure_offset.checked_mul(
        delta,
    ) {
        Some(p) => p,
        None => return false,
    };
    let offset_term = offset_product >> 6u32;
    assert(offset_term == offset_product / 64) by (bit_vector)
        requires
            offset_term == offset_product >> 6u32,
    ;
    let offset_1 = match (calibration_data.pressure_offset << 17u32).checked_add(offset_term) {
        Some(o) => o,
        None => return false,
    };
    let sensitivity_product =
        match calibration_data.temperature_coefficient_pressure_sensitivity.checked_mul(delta) {
        Some(p) => p,
        None => return false,
    };
    let sensitivity_term = sensitivity_product >> 7u32;
    assert(sensitivity_term == sensitivity_product / 128) by (bit_vector)
        requires
            sensitivity_term == sensitivity_product >> 7u32,
    ;
    let sensitivity_1 = match (calibration_data.pressure_sensitivity << 16u32).checked_add(
        sensitivity_term,
    ) {
        Some(v) => v,
        None => return false,
    };
    if (raw_pressure as i64).checked_mul(sensitivity_1).is_none() {
        return false;
    }
    -42 <= offset_1 && offset_1 <= 21
}

/// Humidity in percent from the three bytes the humidity part sends (word
/// most significant byte first, then a checksum byte that is not read).
pub fn humidity_from_measurement(buffer: [u8; 3]) -> (h: i64)
    ensures
        h == relative_humidity(buffer[0] * 256 + buffer[1]),
        -6 <= h <= 118,
{
    let b0 = buffer[0];
    let b1 = buffer[1];
    let word = ((b0 as u32) << 8u32) | (b1 as u32);
    assert(((b0 as u32) << 8u32) | (b1 as u32) == (b0 as u32) * 256 + (b1 as u32)) by (bit_vector);
    let raw_humidity = word as i64;
    let scale = 1i64 << 16u32;
    assert(scale == 0x1_0000) by (bit_vector)
        requires
            scale == 1i64 << 16u32,
    ;
    raw_humidity * 125 / scale - 6
}

/// The value of a PROM word, most significant byte first.
pub fn prom_word(buffer: [u8; 2]) -> (w: i64)
    ensures
        w == be_word(buffer),
        0 <= w <= 0xFFFF,
{
    let b0 = buffer[0];
    let b1 = buffer[1];
    let word = ((b0 as u16) << 8u32) | (b1 as u16);
    assert(((b0 as u16) << 8u32) | (b1 as u16) == (b0 as u16) * 256 + (b1 as u16)) by (bit_vector);
    word as i64
}

/// The PROM read commands for the calibration coefficients, in the order of
/// the fields of `CalibrationData`.
pub fn calibration_prom_commands() -> (commands: [u8; 6])
    ensures
        commands@ == seq![
            PT_COMMAND_PROM_READ_PRESSURE_SENSITIVITY,
            PT_COMMAND_PROM_READ_PRESSURE_OFFSET,
            PT_COMMAND_PROM_READ_TEMPERATURE_COEFFICIENT_PRESSURE_SENSITIVITY,
            PT_COMMAND_PROM_READ_TEMPERATURE_COEFFICIENT_PRESSURE_OFFSET,
            PT_COMMAND_PROM_READ_REFERENCE_TEMPERATURE,
            PT_COMMAND_PROM_READ_TEMPERATURE_COEFFICIENT_TEMPERATURE,
        ],
{
    let commands = [
        PT_COMMAND_PROM_READ_PRESSURE_SENSITIVITY,
        PT_COMMAND_PROM_READ_PRESSURE_OFFSET,
        PT_COMMAND_PROM_READ_TEMPERATURE_COEFFICIENT_PRESSURE_SENSITIVITY,
        PT_COMMAND_PROM_READ_TEMPERATURE_COEFFICIENT_PRESSURE_OFFSET,
        PT_COMMAND_PROM_READ_REFERENCE_TEMPERATURE,
        PT_COMMAND_PROM_READ_TEMPERATURE_COEFFICIENT_TEMPERATURE,
    ];
    assert(commands@ =~= seq![
        PT_COMMAND_PROM_READ_PRESSURE_SENSITIVITY,
        PT_COMMAND_PROM_READ_PRESSURE_OFFSET,
        PT_COMMAND_PROM_READ_TEMPERATURE_COEFFICIENT_PRESSURE_SENSITIVITY,
        PT_COMMAND_PROM_READ_TEMPERATURE_COEFFICIENT_PRESSURE_OFFSET,
        PT_COMMAND_PROM_READ_REFERENCE_TEMPERATURE,
        PT_COMMAND_PROM_READ_TEMPERATURE_COEFFICIENT_TEMPERATURE,
    ]);
    commands
}

/// The calibration coefficients from the six PROM words read with
/// `calibration_prom_commands`, in that order.
pub fn calibration_from_prom(words: &[[u8; 2]; 6]) -> (cal: CalibrationData)
    ensures
        cal.pressure_sensitivity == be_word(words[0]),
        cal.pressure_offset == be_word(words[1]),
        cal.temperature_coefficient_pressure_sensitivity == be_word(words[2]),
        cal.temperature_coefficient_pressure_offset == be_word(words[3]),
        cal.reference_temperature == be_word(words[4]),
        cal.temperature_coefficient_temperature == be_word(words[5]),
        cal.is_prom_word_set(),
{
    CalibrationData {
        pressure_sensitivity: prom_word(words[0]),
        pressure_offset: prom_word(words[1]),
        temperature_coefficient_pressure_sensitivity: prom_word(words[2]),
        temperature_coefficient_pressure_offset: prom_word(words[3]),
        reference_temperature: prom_word(words[4]),
        temperature_coefficient_temperature: prom_word(words[5]),
    }
}

} // verus!
